use vstd::prelude::*;
use crate::descriptor::entries_view;
use crate::sync::{
    all_named, distinct_names_upto, entry_name, plan_sync, usable_name, usable_upto,
};

verus! {

/// Where pages come from: repositories to mirror (each a URL, optionally
/// followed by a subpath selection), the directory they are mirrored
/// into, and local directories of pages.
pub struct PageDb {
    pub git_repos: Vec<Vec<String>>,
    pub git_download_dir: String,
    pub local_dirs: Vec<String>,
}

pub struct Style {}

pub struct DefaultFlags {}

pub struct Config {
    pub page_db: PageDb,
    pub style: Style,
    pub default_flags: DefaultFlags,
}

pub open spec fn default_download_dir() -> Seq<char> {
    "./online_pages"@
}

impl Default for Config {
    /// No repositories, no local directories, and pages mirrored next to the
    /// configuration file.
    fn default() -> (r: Config)
        ensures
            r.page_db.git_repos.len() == 0,
            r.page_db.git_download_dir@ == default_download_dir(),
            r.page_db.local_dirs.len() == 0,
    {
        Config {
            page_db: PageDb {
                git_repos: Vec::new(),
                git_download_dir: String::from_str("./online_pages"),
                local_dirs: Vec::new(),
            },
            style: Style {  },
            default_flags: DefaultFlags {  },
        }
    }
}

/// Why the configuration's repositories cannot be synced, as one line, or
/// nothing when they can. Where there are several problems, the first one
/// `plan_sync` meets is given.
pub fn validate_config(config: &Config) -> (r: Vec<String>)
    ensures
        ({
            let ev = entries_view(config.page_db.git_repos@);
            if !all_named(ev) {
                r.len() == 1 && r@[0]@ == "A repository entry has no URL"@
            } else if !(usable_upto(ev, ev.len() as int) && distinct_names_upto(
                ev,
                ev.len() as int,
            )) {
                &&& r.len() == 1
                &&& exists|j: int|
                    0 <= j < ev.len() && usable_upto(ev, j) && distinct_names_upto(ev, j) && {
                        ||| !usable_name(entry_name(ev, j)) && r@[0]@
                            == "No directory name can be derived from the URL "@ + ev[j][0]
                        ||| usable_name(entry_name(ev, j)) && (exists|i: int|
                            0 <= i < j && entry_name(ev, i) == entry_name(ev, j)) && r@[0]@
                            == "Two repositories share the directory name "@ + entry_name(ev, j)
                    }
            } else {
                r.len() == 0
            }
        }),
{
    let mut r: Vec<String> = Vec::new();
    match plan_sync(&config.page_db.git_repos) {
        Ok(_) => {},
        Err(e) => {
            r.push(e.message());
        },
    }
    r
}

} // verus!
