//! Where the application looks for the files it ships beside itself: the theme style sheet
//! and the documentation, relative to the working directory and to the executable.
use vstd::prelude::*;

use crate::paths::{parent, path_join, same_path, std_join, std_parent, std_same_path};

verus! {

/// The theme that the application ships.
pub const DEFAULT_APP_THEME_NAME: &'static str = "default";

/// The style sheet of a theme.
pub const DEFAULT_APP_THEME_LAYOUT_FILE: &'static str = "layout.css";

/// The style sheet of the default theme in the directory `base`.
pub open spec fn theme_file_under(base: Seq<char>) -> Seq<char> {
    std_join(std_join(std_join(base, "themes"@), DEFAULT_APP_THEME_NAME@), DEFAULT_APP_THEME_LAYOUT_FILE@)
}

/// The view of an optional text.
pub open spec fn opt_view(s: Option<&str>) -> Option<Seq<char>> {
    match s {
        Some(v) => Some(v@),
        None => None,
    }
}

/// Where the theme style sheet may be, in order of preference, before repeats are removed:
/// below the working directory `cwd`, beside the executable `exe`, and in the `Resources`
/// directory of the application bundle around it.
pub open spec fn theme_candidates_raw(cwd: Option<Seq<char>>, exe: Option<Seq<char>>) -> Seq<Seq<char>> {
    let from_cwd = match cwd {
        Some(d) => seq![theme_file_under(d)],
        None => Seq::empty(),
    };
    let beside_exe = match exe {
        Some(e) => match std_parent(e) {
            Some(dir) => seq![theme_file_under(dir)],
            None => Seq::empty(),
        },
        None => Seq::empty(),
    };
    let in_bundle = match exe {
        Some(e) => match std_parent(e) {
            Some(dir) => match std_parent(dir) {
                Some(contents) => seq![theme_file_under(std_join(contents, "Resources"@))],
                None => Seq::empty(),
            },
            None => Seq::empty(),
        },
        None => Seq::empty(),
    };
    from_cwd + beside_exe + in_bundle
}

/// `Vec::dedup` on paths: each path that is the same path as the one kept before it is dropped.
pub open spec fn dedup_paths(s: Seq<Seq<char>>) -> Seq<Seq<char>>
    decreases s.len(),
{
    if s.len() == 0 {
        s
    } else {
        let kept = dedup_paths(s.drop_last());
        if kept.len() > 0 && std_same_path(s.last(), kept.last()) {
            kept
        } else {
            kept.push(s.last())
        }
    }
}

/// The views of a list of paths.
pub open spec fn path_views(v: Seq<String>) -> Seq<Seq<char>> {
    v.map_values(|p: String| p@)
}

fn theme_file_in(base: &str) -> (r: String)
    ensures
        r@ == theme_file_under(base@),
{
    let themes = path_join(base, "themes");
    let theme = path_join(themes.as_str(), DEFAULT_APP_THEME_NAME);
    path_join(theme.as_str(), DEFAULT_APP_THEME_LAYOUT_FILE)
}

/// `Vec::dedup` on a list of paths.
fn dedup_path_list(v: Vec<String>) -> (r: Vec<String>)
    ensures
        path_views(r@) == dedup_paths(path_views(v@)),
{
    let mut out: Vec<String> = Vec::new();
    let mut i: usize = 0;
    let ghost all = path_views(v@);
    while i < v.len()
        invariant
            i <= v.len(),
            all == path_views(v@),
            path_views(out@) == dedup_paths(all.take(i as int)),
        decreases v.len() - i,
    {
        let ghost prefix = all.take(i + 1);
        assert(prefix.drop_last() =~= all.take(i as int));
        assert(prefix.last() == v@[i as int]@);
        let keep = if out.len() > 0 {
            let last = out.len() - 1;
            assert(path_views(out@).last() == out@[last as int]@);
            !same_path(v[i].as_str(), out[last].as_str())
        } else {
            true
        };
        if keep {
            let ghost before = out@;
            out.push(v[i].clone());
            assert(path_views(out@) =~= path_views(before).push(v@[i as int]@));
        }
        i += 1;
    }
    assert(all.take(v.len() as int) =~= all);
    out
}

/// Where the theme style sheet may be, in order of preference: below the working directory
/// `current_dir`, beside the executable `current_exe`, and in the `Resources` directory of the
/// application bundle around it; a path the same as the one before it is given once.
pub fn app_theme_candidates(current_dir: Option<&str>, current_exe: Option<&str>) -> (r: Vec<
    String,
>)
    ensures
        path_views(r@) == dedup_paths(theme_candidates_raw(opt_view(current_dir), opt_view(current_exe))),
{
    let mut all: Vec<String> = Vec::new();
    let ghost cwd_part = match current_dir {
        Some(d) => seq![theme_file_under(d@)],
        None => Seq::<Seq<char>>::empty(),
    };
    if let Some(cwd) = current_dir {
        all.push(theme_file_in(cwd));
    }
    assert(path_views(all@) =~= cwd_part);
    if let Some(exe) = current_exe {
        if let Some(dir) = parent(exe) {
            let ghost before = all@;
            all.push(theme_file_in(dir.as_str()));
            assert(path_views(all@) =~= path_views(before).push(all@.last()@));
            if let Some(contents) = parent(dir.as_str()) {
                let resources = path_join(contents.as_str(), "Resources");
                let ghost before2 = all@;
                all.push(theme_file_in(resources.as_str()));
                assert(path_views(all@) =~= path_views(before2).push(all@.last()@));
            }
        }
    }
    assert(path_views(all@) =~= theme_candidates_raw(opt_view(current_dir), opt_view(current_exe)));
    dedup_path_list(all)
}

/// Where the documentation may be, in order of preference: below the working directory `cwd`,
/// in the `Resources` directory reached from the directory of the executable `exe`, and in
/// the `Resources` directory of the application bundle around it.
pub open spec fn documentation_candidates_of(cwd: Option<Seq<char>>, exe: Option<Seq<char>>) -> Seq<
    Seq<char>,
> {
    let from_cwd = match cwd {
        Some(d) => seq![std_join(std_join(std_join(d, "assets"@), "help"@), "Documentation.md"@)],
        None => Seq::empty(),
    };
    let beside_exe = match exe {
        Some(e) => match std_parent(e) {
            Some(dir) => seq![std_join(dir, "../Resources/help/Documentation.md"@)],
            None => Seq::empty(),
        },
        None => Seq::empty(),
    };
    let in_bundle = match exe {
        Some(e) => match std_parent(e) {
            Some(dir) => match std_parent(dir) {
                Some(contents) => seq![std_join(contents, "Resources/help/Documentation.md"@)],
                None => Seq::empty(),
            },
            None => Seq::empty(),
        },
        None => Seq::empty(),
    };
    from_cwd + beside_exe + in_bundle
}

/// Where the documentation may be, in order of preference; the first that exists is opened.
pub fn documentation_candidates(current_dir: Option<&str>, current_exe: Option<&str>) -> (r: Vec<
    String,
>)
    ensures
        path_views(r@) == documentation_candidates_of(opt_view(current_dir), opt_view(current_exe)),
{
    let mut out: Vec<String> = Vec::new();
    let ghost cwd_part = match current_dir {
        Some(d) => seq![std_join(std_join(std_join(d@, "assets"@), "help"@), "Documentation.md"@)],
        None => Seq::<Seq<char>>::empty(),
    };
    if let Some(cwd) = current_dir {
        let assets = path_join(cwd, "assets");
        let help = path_join(assets.as_str(), "help");
        out.push(path_join(help.as_str(), "Documentation.md"));
    }
    assert(path_views(out@) =~= cwd_part);
    if let Some(exe) = current_exe {
        if let Some(dir) = parent(exe) {
            let ghost before = out@;
            out.push(path_join(dir.as_str(), "../Resources/help/Documentation.md"));
            assert(path_views(out@) =~= path_views(before).push(out@.last()@));
            if let Some(contents) = parent(dir.as_str()) {
                let ghost before2 = out@;
                out.push(path_join(contents.as_str(), "Resources/help/Documentation.md"));
                assert(path_views(out@) =~= path_views(before2).push(out@.last()@));
            }
        }
    }
    assert(path_views(out@) =~= documentation_candidates_of(opt_view(current_dir), opt_view(current_exe)));
    out
}

} // verus!
