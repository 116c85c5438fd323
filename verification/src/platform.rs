//! What differs between the platforms the application runs on: the name of the primary
//! shortcut key and the texts that mention it, and which command-line arguments are files.
use vstd::prelude::*;

use crate::events::{ActionContext, EventCounter, OpenPathRequest};
use crate::text::{concat, concat3, has_prefix, starts_with};

verus! {

/// The platform the application was built for.
#[derive(Clone, Copy, Debug, PartialEq, Eq, Structural)]
pub enum Platform {
    MacOs,
    Other,
}

/// The name of the primary shortcut key.
pub open spec fn shortcut_name(platform: Platform) -> Seq<char> {
    match platform {
        Platform::MacOs => "Command"@,
        Platform::Other => "Ctrl"@,
    }
}

/// The name of the primary shortcut key on `platform`.
pub fn primary_shortcut_name(platform: Platform) -> (r: &'static str)
    ensures
        r@ == shortcut_name(platform),
{
    match platform {
        Platform::MacOs => "Command",
        Platform::Other => "Ctrl",
    }
}

/// How the shortcut of `key` with the primary key is written, such as `Ctrl+O`.
pub open spec fn shortcut_label(platform: Platform, key: Seq<char>) -> Seq<char> {
    shortcut_name(platform) + "+"@ + key
}

/// How the shortcut of `key` with the primary key is written on `platform`.
pub fn primary_shortcut_label(platform: Platform, key: &str) -> (r: String)
    ensures
        r@ == shortcut_label(platform, key@),
{
    concat3(primary_shortcut_name(platform), "+", key)
}

/// The status line before any document is open.
pub fn ready_status_message(platform: Platform) -> (r: String)
    ensures
        r@ == "Ready. Open a Markdown file or press "@ + shortcut_label(platform, "O"@) + "."@,
{
    let label = primary_shortcut_label(platform, "O");
    concat3("Ready. Open a Markdown file or press ", label.as_str(), ".")
}

/// The hint under the title of the empty window.
pub fn document_subtitle(platform: Platform) -> (r: String)
    ensures
        r@ == "Use "@ + shortcut_label(platform, "O"@) + " or drag a Markdown file into the window."@,
{
    let label = primary_shortcut_label(platform, "O");
    concat3("Use ", label.as_str(), " or drag a Markdown file into the window.")
}

/// The last line of the About panel.
pub fn about_footer() -> (r: &'static str)
    ensures
        r@ == "Built for local Markdown reading and writing on macOS and Windows 11."@,
{
    "Built for local Markdown reading and writing on macOS and Windows 11."
}

/// Whether the page's own shortcuts use the Meta key rather than Control.
pub fn browser_shortcut_uses_meta_key(platform: Platform) -> (r: bool)
    ensures
        r == (platform == Platform::MacOs),
{
    match platform {
        Platform::MacOs => true,
        Platform::Other => false,
    }
}

/// The arguments among `args[1..n]` that name files to open: those that do not begin with
/// `--`, in order.
pub open spec fn cli_paths(args: Seq<Seq<char>>, n: int) -> Seq<Seq<char>>
    decreases n,
{
    if n <= 1 {
        Seq::empty()
    } else if has_prefix(args[n - 1], "--"@) {
        cli_paths(args, n - 1)
    } else {
        cli_paths(args, n - 1).push(args[n - 1])
    }
}

/// The number that a counter at `start` hands out `k` numbers later.
pub open spec fn counted(start: u64, k: int) -> u64 {
    ((start + k) % 0x1_0000_0000_0000_0000) as u64
}

/// The views of a list of arguments.
pub open spec fn arg_views(args: Seq<String>) -> Seq<Seq<char>> {
    args.map_values(|a: String| a@)
}

/// The requests to open the files named on the command line `args` (whose first item is
/// the program), numbered by `counter` in order and coming from `cli-open-path`.
pub fn startup_open_requests(args: &Vec<String>, counter: &mut EventCounter) -> (r: Vec<
    OpenPathRequest,
>)
    ensures
        r@.len() == cli_paths(arg_views(args@), args@.len() as int).len(),
        forall|k: int|
            0 <= k < r@.len() ==> {
                &&& (#[trigger] r@[k]).path@ == cli_paths(arg_views(args@), args@.len() as int)[k]
                &&& r@[k].ctx.event_id == counted(old(counter).next_value(), k)
                &&& r@[k].ctx.source@ == "cli-open-path"@
            },
        final(counter).next_value() == counted(old(counter).next_value(), r@.len() as int),
{
    let ghost start = counter.next_value();
    let ghost views = arg_views(args@);
    let mut requests: Vec<OpenPathRequest> = Vec::new();
    let mut i: usize = 1;
    assert(counted(start, 0) == start);
    while i < args.len()
        invariant
            1 <= i <= args.len() || (args.len() == 0 && i == 1),
            views == arg_views(args@),
            requests@.len() == cli_paths(views, i as int).len(),
            forall|k: int|
                0 <= k < requests@.len() ==> {
                    &&& (#[trigger] requests@[k]).path@ == cli_paths(views, i as int)[k]
                    &&& requests@[k].ctx.event_id == counted(start, k)
                    &&& requests@[k].ctx.source@ == "cli-open-path"@
                },
            counter.next_value() == counted(start, requests@.len() as int),
        decreases args.len() - i,
    {
        let arg = &args[i];
        assert(views[i as int] == arg@);
        if !starts_with(arg.as_str(), "--") {
            let ghost before = counter.next_value();
            let ctx = counter.new_action_context("cli-open-path");
            proof {
                let n = requests@.len() as int;
                assert(counted(start, n + 1) == (if before == u64::MAX {
                    0
                } else {
                    (before + 1) as u64
                })) by {
                    assert(before == ((start + n) % 0x1_0000_0000_0000_0000) as u64);
                }
            }
            requests.push(OpenPathRequest { ctx, path: arg.clone() });
        }
        i += 1;
    }
    proof {
        if args.len() == 0 {
            assert(cli_paths(views, 0) =~= Seq::<Seq<char>>::empty());
            assert(cli_paths(views, 1) =~= Seq::<Seq<char>>::empty());
            assert(requests@.len() == 0);
        } else {
            assert(i == args.len());
        }
    }
    requests
}

} // verus!
