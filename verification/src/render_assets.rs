//! The resources that go into a rendered page: the theme style sheet and the diagram and
//! formula runtimes, made safe to inline, and the logo as a data URL.
use vstd::prelude::*;

use crate::text::{concat, contains_seq, lemma_replaced_leaves_no_pattern, replace, replaced, string_of};

verus! {

/// What a page inlines besides the document: the version it names and the resources that
/// the application ships (the theme style sheet, the Mermaid and MathJax runtimes).
pub struct ExportResources {
    pub app_version: String,
    pub theme_css: String,
    pub mermaid_runtime: String,
    pub mathjax_runtime: String,
}

/// `css` with every `</style` written as `<\/style`, so that it cannot end the `<style>`
/// element it is inlined in.
pub open spec fn inline_style(css: Seq<char>) -> Seq<char> {
    replaced(css, "</style"@, "<\\/style"@)
}

/// `js` with every `</script` written as `<\/script`, so that it cannot end the `<script>`
/// element it is inlined in.
pub open spec fn inline_script(js: Seq<char>) -> Seq<char> {
    replaced(js, "</script"@, "<\\/script"@)
}

/// An inlined runtime holds no `</script`, so it cannot end the `<script>` element it
/// stands in.
pub proof fn law_inline_script_cannot_close_its_element(js: Seq<char>)
    ensures
        !contains_seq(inline_script(js), "</script"@),
{
    reveal_strlit("</script");
    reveal_strlit("<\\/script");
    let from = "</script"@;
    let to = "<\\/script"@;
    assert(to.take(from.len() as int)[1] != from[1]);
    lemma_replaced_leaves_no_pattern(js, from, to);
}

/// An inlined style sheet holds no `</style`, so it cannot end the `<style>` element it
/// stands in.
pub proof fn law_inline_style_cannot_close_its_element(css: Seq<char>)
    ensures
        !contains_seq(inline_style(css), "</style"@),
{
    reveal_strlit("</style");
    reveal_strlit("<\\/style");
    let from = "</style"@;
    let to = "<\\/style"@;
    assert(to.take(from.len() as int)[1] != from[1]);
    lemma_replaced_leaves_no_pattern(css, from, to);
}

/// The theme style sheet, ready to stand inside a `<style>` element.
pub fn load_app_theme_css_for_inline_style(css: &str) -> (r: String)
    ensures
        r@ == inline_style(css@),
{
    proof {
        reveal_strlit("</style");
    }
    replace(css, "</style", "<\\/style")
}

/// The Mermaid runtime, ready to stand inside a `<script>` element.
pub fn mermaid_runtime_for_inline_script(js: &str) -> (r: String)
    ensures
        r@ == inline_script(js@),
{
    proof {
        reveal_strlit("</script");
    }
    replace(js, "</script", "<\\/script")
}

/// The MathJax runtime, ready to stand inside a `<script>` element.
pub fn mathjax_runtime_for_inline_script(js: &str) -> (r: String)
    ensures
        r@ == inline_script(js@),
{
    proof {
        reveal_strlit("</script");
    }
    replace(js, "</script", "<\\/script")
}

/// The base64 digit for the six-bit value `v`.
pub open spec fn base64_digit(v: int) -> char {
    if v < 26 {
        ('A' as int + v) as char
    } else if v < 52 {
        ('a' as int + v - 26) as char
    } else if v < 62 {
        ('0' as int + v - 52) as char
    } else if v == 62 {
        '+'
    } else {
        '/'
    }
}

/// Standard base64 with `=` padding: each group of three bytes becomes four digits, and a
/// last group of one or two bytes is padded.
pub open spec fn base64_of(b: Seq<u8>) -> Seq<char>
    decreases b.len(),
{
    if b.len() == 0 {
        Seq::empty()
    } else if b.len() == 1 {
        seq![base64_digit((b[0] / 4) as int), base64_digit((b[0] % 4) * 16), '=', '=']
    } else if b.len() == 2 {
        seq![
            base64_digit((b[0] / 4) as int),
            base64_digit((b[0] % 4) * 16 + b[1] / 16),
            base64_digit((b[1] % 16) * 4),
            '=',
        ]
    } else {
        seq![
            base64_digit((b[0] / 4) as int),
            base64_digit((b[0] % 4) * 16 + b[1] / 16),
            base64_digit((b[1] % 16) * 4 + b[2] / 64),
            base64_digit((b[2] % 64) as int),
        ] + base64_of(b.skip(3))
    }
}

fn digit_for(v: u8) -> (r: char)
    requires
        v < 64,
    ensures
        r == base64_digit(v as int),
{
    if v < 26 {
        (65u8 + v) as char
    } else if v < 52 {
        (97u8 + (v - 26)) as char
    } else if v < 62 {
        (48u8 + (v - 52)) as char
    } else if v == 62 {
        '+'
    } else {
        '/'
    }
}

/// Encodes `bytes` in standard base64 with padding.
pub fn encode_base64(bytes: &[u8]) -> (r: String)
    ensures
        r@ == base64_of(bytes@),
{
    let mut out: Vec<char> = Vec::new();
    let n = bytes.len();
    let mut i: usize = 0;
    assert(bytes@.skip(0) =~= bytes@);
    assert(out@ + base64_of(bytes@.skip(0)) =~= base64_of(bytes@));
    while n - i >= 3
        invariant
            n == bytes@.len(),
            i <= n,
            out@ + base64_of(bytes@.skip(i as int)) == base64_of(bytes@),
        decreases n - i,
    {
        let b0 = bytes[i];
        let b1 = bytes[i + 1];
        let b2 = bytes[i + 2];
        let ghost rest = bytes@.skip(i as int);
        assert(rest.skip(3) =~= bytes@.skip(i + 3));
        let ghost chunk = seq![
            base64_digit((b0 / 4) as int),
            base64_digit((b0 % 4) * 16 + b1 / 16),
            base64_digit((b1 % 16) * 4 + b2 / 64),
            base64_digit((b2 % 64) as int),
        ];
        assert(base64_of(rest) == chunk + base64_of(bytes@.skip(i + 3)));
        let ghost before = out@;
        out.push(digit_for(b0 / 4));
        out.push(digit_for((b0 % 4) * 16 + b1 / 16));
        out.push(digit_for((b1 % 16) * 4 + b2 / 64));
        out.push(digit_for(b2 % 64));
        assert(out@ =~= before + chunk);
        assert(out@ + base64_of(bytes@.skip(i + 3)) =~= before + (chunk + base64_of(bytes@.skip(i + 3))));
        i += 3;
    }
    let ghost rest = bytes@.skip(i as int);
    if n - i == 1 {
        let b0 = bytes[i];
        out.push(digit_for(b0 / 4));
        out.push(digit_for((b0 % 4) * 16));
        out.push('=');
        out.push('=');
    } else if n - i == 2 {
        let b0 = bytes[i];
        let b1 = bytes[i + 1];
        out.push(digit_for(b0 / 4));
        out.push(digit_for((b0 % 4) * 16 + b1 / 16));
        out.push(digit_for((b1 % 16) * 4));
        out.push('=');
    }
    assert(out@ =~= base64_of(bytes@));
    string_of(&out)
}

/// Whether `c` is a digit of base64: `A`-`Z`, `a`-`z`, `0`-`9`, `+` or `/`.
pub open spec fn is_base64_digit(c: char) -> bool {
    ||| 65 <= c as int <= 90
    ||| 97 <= c as int <= 122
    ||| 48 <= c as int <= 57
    ||| c == '+'
    ||| c == '/'
}

/// The six-bit value of the base64 digit `c`.
pub open spec fn sextet_of(c: char) -> int {
    if 65 <= c as int <= 90 {
        c as int - 65
    } else if 97 <= c as int <= 122 {
        c as int - 97 + 26
    } else if 48 <= c as int <= 57 {
        c as int - 48 + 52
    } else if c == '+' {
        62
    } else {
        63
    }
}

/// Standard base64 decoding of `s`, whose length is a multiple of four: each group of four
/// digits gives three bytes, or fewer where it ends in `=`.
pub open spec fn base64_decoded(s: Seq<char>) -> Seq<u8>
    decreases s.len(),
{
    if s.len() < 4 {
        Seq::empty()
    } else {
        let a = sextet_of(s[0]);
        let b = sextet_of(s[1]);
        let c = sextet_of(s[2]);
        let d = sextet_of(s[3]);
        let first = (a * 4 + b / 16) as u8;
        let second = ((b % 16) * 16 + c / 4) as u8;
        let third = ((c % 4) * 64 + d) as u8;
        let group = if s[2] == '=' {
            seq![first]
        } else if s[3] == '=' {
            seq![first, second]
        } else {
            seq![first, second, third]
        };
        group + base64_decoded(s.skip(4))
    }
}

/// How many `=` end the base64 encoding of `n` bytes.
pub open spec fn base64_padding(n: nat) -> int {
    if n % 3 == 1 {
        2
    } else if n % 3 == 2 {
        1
    } else {
        0
    }
}

proof fn lemma_digit(v: int)
    requires
        0 <= v < 64,
    ensures
        is_base64_digit(base64_digit(v)),
        sextet_of(base64_digit(v)) == v,
        base64_digit(v) != '=',
{
}

proof fn lemma_group(x: u8, y: u8, z: u8)
    ensures
        (((x / 4) as int) * 4 + ((x % 4) * 16 + y / 16) / 16) as u8 == x,
        ((((x % 4) * 16 + y / 16) % 16) * 16 + ((y % 16) * 4 + z / 64) / 4) as u8 == y,
        ((((y % 16) * 4 + z / 64) % 4) * 64 + (z % 64) as int) as u8 == z,
        (((x / 4) as int) * 4 + ((x % 4) * 16) / 16) as u8 == x,
        ((((x % 4) * 16 + y / 16) % 16) * 16 + ((y % 16) * 4) / 4) as u8 == y,
        0 <= ((x / 4) as int) < 64,
        0 <= (x % 4) * 16 + y / 16 < 64,
        0 <= (y % 16) * 4 + z / 64 < 64,
        0 <= (x % 4) * 16 < 64,
        0 <= (y % 16) * 4 < 64,
{
    assert((((x / 4) as int) * 4 + ((x % 4) * 16 + y / 16) / 16) == x) by (nonlinear_arith);
    assert(((((x % 4) * 16 + y / 16) % 16) * 16 + ((y % 16) * 4 + z / 64) / 4) == y) by (
    nonlinear_arith);
    assert(((((y % 16) * 4 + z / 64) % 4) * 64 + (z % 64) as int) == z) by (nonlinear_arith);
    assert((((x / 4) as int) * 4 + ((x % 4) * 16) / 16) == x) by (nonlinear_arith);
    assert(((((x % 4) * 16 + y / 16) % 16) * 16 + ((y % 16) * 4) / 4) == y) by (nonlinear_arith);
}

/// The base64 encoding of `b`, as `encode_base64` gives it: four characters for every three
/// bytes begun; each a base64 digit, but for the `=` that pad the end, two after one byte left
/// over and one after two; and standard base64 decoding gives back `b`.
pub proof fn law_base64_shape_and_round_trip(b: Seq<u8>)
    ensures
        base64_of(b).len() == 4 * ((b.len() + 2) / 3),
        forall|i: int|
            0 <= i < base64_of(b).len() ==> (#[trigger] base64_of(b)[i] == '=' <==> i
                >= base64_of(b).len() - base64_padding(b.len())),
        forall|i: int|
            0 <= i < base64_of(b).len() - base64_padding(b.len()) ==> is_base64_digit(
                #[trigger] base64_of(b)[i],
            ),
        base64_decoded(base64_of(b)) == b,
    decreases b.len(),
{
    let r = base64_of(b);
    if b.len() == 0 {
        assert(base64_decoded(r) =~= b);
    } else if b.len() == 1 {
        lemma_group(b[0], 0, 0);
        lemma_digit((b[0] / 4) as int);
        lemma_digit((b[0] % 4) * 16);
        assert(r.skip(4) =~= Seq::<char>::empty());
        assert(base64_decoded(r.skip(4)) =~= Seq::<u8>::empty());
        assert(r[2] == '=');
        assert(sextet_of(r[0]) == (b[0] / 4) as int);
        assert(sextet_of(r[1]) == (b[0] % 4) * 16);
        assert(base64_decoded(r) =~= seq![(sextet_of(r[0]) * 4 + sextet_of(r[1]) / 16) as u8]);
        assert(base64_decoded(r) =~= b);
    } else if b.len() == 2 {
        lemma_group(b[0], b[1], 0);
        lemma_digit((b[0] / 4) as int);
        lemma_digit((b[0] % 4) * 16 + b[1] / 16);
        lemma_digit((b[1] % 16) * 4);
        assert(r.skip(4) =~= Seq::<char>::empty());
        assert(base64_decoded(r.skip(4)) =~= Seq::<u8>::empty());
        assert(r[2] != '=' && r[3] == '=');
        assert(sextet_of(r[0]) == (b[0] / 4) as int);
        assert(sextet_of(r[1]) == (b[0] % 4) * 16 + b[1] / 16);
        assert(sextet_of(r[2]) == (b[1] % 16) * 4);
        assert(base64_decoded(r) =~= seq![
            (sextet_of(r[0]) * 4 + sextet_of(r[1]) / 16) as u8,
            ((sextet_of(r[1]) % 16) * 16 + sextet_of(r[2]) / 4) as u8,
        ]);
        assert(base64_decoded(r) =~= b);
    } else {
        let rest = b.skip(3);
        law_base64_shape_and_round_trip(rest);
        lemma_group(b[0], b[1], b[2]);
        lemma_digit((b[0] / 4) as int);
        lemma_digit((b[0] % 4) * 16 + b[1] / 16);
        lemma_digit((b[1] % 16) * 4 + b[2] / 64);
        lemma_digit((b[2] % 64) as int);
        let head = seq![
            base64_digit((b[0] / 4) as int),
            base64_digit((b[0] % 4) * 16 + b[1] / 16),
            base64_digit((b[1] % 16) * 4 + b[2] / 64),
            base64_digit((b[2] % 64) as int),
        ];
        let tail = base64_of(rest);
        assert(r == head + tail);
        assert(rest.len() == b.len() - 3);
        assert(base64_padding(b.len()) == base64_padding(rest.len()));
        assert(((b.len() + 2) / 3) == ((rest.len() + 2) / 3) + 1);
        assert forall|i: int| 0 <= i < r.len() implies (#[trigger] r[i] == '=' <==> i >= r.len()
            - base64_padding(b.len())) by {
            if i >= 4 {
                assert(r[i] == tail[i - 4]);
            }
        }
        assert forall|i: int| 0 <= i < r.len() - base64_padding(b.len()) implies is_base64_digit(
            #[trigger] r[i],
        ) by {
            if i >= 4 {
                assert(r[i] == tail[i - 4]);
            }
        }
        assert(r.skip(4) =~= tail);
        assert(b =~= seq![b[0], b[1], b[2]] + rest);
        assert(base64_decoded(r) =~= b);
    }
}

/// The application logo, a PNG image given by its bytes, as a `data:` URL.
pub fn app_logo_data_url(png: &[u8]) -> (r: String)
    ensures
        r@ == "data:image/png;base64,"@ + base64_of(png@),
{
    let encoded = encode_base64(png);
    concat("data:image/png;base64,", encoded.as_str())
}

} // verus!
