//! The PC program's own logic: its options, and the scripts that show a
//! response in the web view.
use vstd::prelude::*;
use crate::engine::{EngineOptions, InterfaceType, SearchOptions};
use crate::interface::ResponseResult;
use crate::item::opt_seq;
use crate::repo_shared::RepoOptions;
use crate::task::copy_opt;
use crate::text::push_char;

verus! {

/// Options from the command line (or from a configuration file).
pub struct Opt {
    /// database file
    pub database_path: String,
    /// path to the git repository
    pub repo: String,
    /// repository branch
    pub repo_branch: Option<String>,
    /// repository remote
    pub repo_remote: Option<String>,
    /// name for git commits
    pub name: String,
    /// URL of the remote repository
    pub url: Option<String>,
    /// email for git commits
    pub email: String,
    /// verbose output
    pub verbose: bool,
    /// web view debugging
    pub debug: bool,
    /// prefix for identifiers
    pub uniq_pfx: String,
    /// configuration file (overrides all values)
    pub config: String,
    /// the directory within the repository containing items
    pub item_dir: String,
    /// do not write to the remote server
    pub no_write_to_server: bool,
    /// automatically make items for missing items in links
    pub auto_link: bool,
    /// path to the ssh credentials
    pub ssh_path: String,
    /// whether to slurp ssh files
    pub slurp_ssh: bool,
}

/// The engine options for the PC program: taken from the command-line
/// options, with a PC interface. `root_path` and `status_path` say where
/// all the data and the status record are kept.
pub fn engine_options_from_opt(opt: &Opt, root_path: String, status_path: String) -> (r: EngineOptions)
    ensures
        r.correct,
        r.repo_options.path@ == opt.repo@,
        r.repo_options.name@ == opt.name@,
        r.repo_options.email@ == opt.email@,
        opt_seq(r.repo_options.url) == opt_seq(opt.url),
        opt_seq(r.repo_options.required_branch) == opt_seq(opt.repo_branch),
        opt_seq(r.repo_options.required_remote) == opt_seq(opt.repo_remote),
        r.repo_options.item_dir@ == opt.item_dir@,
        r.repo_options.write_to_server == !opt.no_write_to_server,
        r.repo_options.ssh_path@ == opt.ssh_path@,
        r.repo_options.slurp_ssh == opt.slurp_ssh,
        r.interface_type == InterfaceType::PC,
        r.search_options.database_path@ == opt.database_path@,
        r.uniq_pfx@ == opt.uniq_pfx@,
        r.auto_link == opt.auto_link,
        r.status_path@ == status_path@,
        r.root_path@ == root_path@,
{
    EngineOptions {
        correct: true,
        repo_options: RepoOptions {
            path: opt.repo.clone(),
            name: opt.name.clone(),
            email: opt.email.clone(),
            url: copy_opt(&opt.url),
            required_branch: copy_opt(&opt.repo_branch),
            required_remote: copy_opt(&opt.repo_remote),
            item_dir: opt.item_dir.clone(),
            write_to_server: !opt.no_write_to_server,
            ssh_path: opt.ssh_path.clone(),
            slurp_ssh: opt.slurp_ssh,
        },
        interface_type: InterfaceType::PC,
        search_options: SearchOptions { database_path: opt.database_path.clone() },
        uniq_pfx: opt.uniq_pfx.clone(),
        auto_link: opt.auto_link,
        status_path,
        root_path,
    }
}

/// `s` with each double quote preceded by a backslash.
pub open spec fn quotes_escaped(s: Seq<char>) -> Seq<char>
    decreases s.len(),
{
    if s.len() == 0 {
        s
    } else if s.last() == '"' {
        quotes_escaped(s.drop_last()) + seq!['\\', '"']
    } else {
        quotes_escaped(s.drop_last()).push(s.last())
    }
}

/// `s` with each new line replaced by a space.
pub open spec fn newlines_as_spaces(s: Seq<char>) -> Seq<char> {
    s.map_values(|c: char| if c == '\n' { ' ' } else { c })
}

/// `s` as a JavaScript string literal: in double quotes, with the double
/// quotes in it escaped.
pub open spec fn js_quoted(s: Seq<char>) -> Seq<char> {
    seq!['"'] + quotes_escaped(s) + seq!['"']
}

/// The script that sets the element `tag` to `val`.
pub open spec fn set_tag_script(tag: Seq<char>, val: Seq<char>) -> Seq<char> {
    "setTag("@ + js_quoted(tag) + ", "@ + js_quoted(val) + ");"@
}

/// `s` as a JavaScript string literal.
pub fn js_quote(s: &str) -> (r: String)
    ensures
        r@ == js_quoted(s@),
{
    let mut r = String::new();
    push_char(&mut r, '"');
    let n = s.unicode_len();
    let mut i: usize = 0;
    while i < n
        invariant
            n == s@.len(),
            i <= n,
            r@ == seq!['"'] + quotes_escaped(s@.subrange(0, i as int)),
        decreases n - i,
    {
        let c = s.get_char(i);
        proof {
            assert(s@.subrange(0, i + 1).drop_last() =~= s@.subrange(0, i as int));
        }
        if c == '"' {
            push_char(&mut r, '\\');
            push_char(&mut r, '"');
        } else {
            push_char(&mut r, c);
        }
        i = i + 1;
        proof {
            assert(r@ =~= seq!['"'] + quotes_escaped(s@.subrange(0, i as int)));
        }
    }
    proof {
        assert(s@.subrange(0, n as int) =~= s@);
    }
    push_char(&mut r, '"');
    r
}

/// `s` with each new line replaced by a space.
pub fn spaces_for_newlines(s: &str) -> (r: String)
    ensures
        r@ == newlines_as_spaces(s@),
{
    let mut r = String::new();
    let n = s.unicode_len();
    let mut i: usize = 0;
    while i < n
        invariant
            n == s@.len(),
            i <= n,
            r@ == newlines_as_spaces(s@.subrange(0, i as int)),
        decreases n - i,
    {
        let c = s.get_char(i);
        if c == '\n' {
            push_char(&mut r, ' ');
        } else {
            push_char(&mut r, c);
        }
        i = i + 1;
        proof {
            assert(r@ =~= newlines_as_spaces(s@.subrange(0, i as int)));
        }
    }
    proof {
        assert(s@.subrange(0, n as int) =~= s@);
    }
    r
}

/// The script that sets the element `tag` to `val`.
pub fn tag_script(tag: &str, val: &str) -> (r: String)
    ensures
        r@ == set_tag_script(tag@, val@),
{
    let mut r = "setTag(".to_owned();
    r.append(js_quote(tag).as_str());
    r.append(", ");
    r.append(js_quote(val).as_str());
    r.append(");");
    r
}

/// How the web view shows a response.
pub struct ResponseDisplay {
    /// the web view is to close
    pub exit: bool,
    /// the scripts to run, in order
    pub scripts: Vec<String>,
}

/// How the web view shows the result of a request: for a response, close
/// when it asks to shut down, and set each of its tags (in order) to its
/// value with new lines as spaces; for an error, set the element `error`
/// to "system error: " and the error's message.
pub fn handle_response(response: &ResponseResult) -> (r: ResponseDisplay)
    ensures
        match response {
            Ok(resp) => {
                &&& r.exit == resp@.shutdown_required
                &&& r.scripts@.len() == resp@.tags.len()
                &&& forall|i: int| 0 <= i < resp@.tags.len() ==> #[trigger] r.scripts@[i]@ == set_tag_script(
                    resp@.tags[i].0,
                    newlines_as_spaces(resp@.tags[i].1),
                )
            },
            Err(e) => {
                &&& !r.exit
                &&& r.scripts@.len() == 1
                &&& r.scripts@[0]@ == set_tag_script("error"@, "system error: "@ + e.message()@)
            },
        },
{
    match response {
        Ok(resp) => {
            let mut scripts: Vec<String> = Vec::new();
            let n = resp.num_tags();
            let mut i: usize = 0;
            while i < n
                invariant
                    n == resp@.tags.len(),
                    i <= n,
                    scripts@.len() == i,
                    forall|k: int| 0 <= k < i ==> #[trigger] scripts@[k]@ == set_tag_script(
                        resp@.tags[k].0,
                        newlines_as_spaces(resp@.tags[k].1),
                    ),
                decreases n - i,
            {
                let (t, v) = resp.get_tag(i);
                let vv = spaces_for_newlines(v.as_str());
                scripts.push(tag_script(t.as_str(), vv.as_str()));
                i = i + 1;
            }
            ResponseDisplay { exit: resp.is_shutdown_required(), scripts }
        },
        Err(e) => {
            let mut msg = "system error: ".to_owned();
            msg.append(e.to_string().as_str());
            let script = tag_script("error", msg.as_str());
            ResponseDisplay { exit: false, scripts: vec![script] }
        },
    }
}


/// Every double quote in an escaped text comes right after a backslash,
/// so a quoted text ends only at its closing quote.
pub proof fn lemma_quotes_escaped(s: Seq<char>)
    ensures
        forall|i: int|
            0 <= i < quotes_escaped(s).len() && #[trigger] quotes_escaped(s)[i] == '"' ==> i > 0 && quotes_escaped(
                s,
            )[i - 1] == '\\',
    decreases s.len(),
{
    if s.len() > 0 {
        lemma_quotes_escaped(s.drop_last());
        let prev = quotes_escaped(s.drop_last());
        let q = quotes_escaped(s);
        assert forall|i: int| 0 <= i < q.len() && #[trigger] q[i] == '"' implies i > 0 && q[i - 1] == '\\' by {
            if i < prev.len() {
                assert(q[i] == prev[i]);
                assert(q[i - 1] == prev[i - 1]);
            }
        }
    }
}

} // verus!
