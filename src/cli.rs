use vstd::prelude::*;
use crate::notify::{strings_view, trimmed};
use crate::pr::{opt_view, PrArgs};
use crate::text::{chars_of, is_lit, push_str_chars, string_of};

verus! {

/// Where a command line goes.
#[derive(Debug)]
pub enum Route {
    /// Straight to `gh`, unchanged.
    Passthrough,
    /// The setup wizard, with its subcommand.
    Setup { sub: Option<String> },
    /// `pr create`, with the flags after it.
    PrCreate { flags: Vec<String> },
    /// `api`, with the flags after it.
    Api { flags: Vec<String> },
}

pub enum RouteView {
    Passthrough,
    Setup(Option<Seq<char>>),
    PrCreate(Seq<Seq<char>>),
    Api(Seq<Seq<char>>),
}

impl View for Route {
    type V = RouteView;

    open spec fn view(&self) -> RouteView {
        match self {
            Route::Passthrough => RouteView::Passthrough,
            Route::Setup { sub } => RouteView::Setup(opt_view(*sub)),
            Route::PrCreate { flags } => RouteView::PrCreate(strings_view(flags@)),
            Route::Api { flags } => RouteView::Api(strings_view(flags@)),
        }
    }
}

/// The route of the arguments `args` (without the program name).
pub open spec fn route_of(args: Seq<Seq<char>>) -> RouteView {
    if args.len() == 0 {
        RouteView::Passthrough
    } else if args[0] == "setup"@ {
        RouteView::Setup(if args.len() > 1 { Some(args[1]) } else { None })
    } else if args[0] == "pr"@ && args.len() > 1 && args[1] == "create"@ {
        RouteView::PrCreate(args.skip(2))
    } else if args[0] == "api"@ {
        RouteView::Api(args.skip(1))
    } else {
        RouteView::Passthrough
    }
}

fn copy_from(args: &[String], start: usize) -> (r: Vec<String>)
    requires
        start <= args@.len(),
    ensures
        strings_view(r@) == strings_view(args@).skip(start as int),
{
    let mut out: Vec<String> = Vec::new();
    let mut i: usize = start;
    while i < args.len()
        invariant
            start <= i <= args@.len(),
            strings_view(out@) == strings_view(args@).subrange(start as int, i as int),
        decreases args@.len() - i,
    {
        let ghost before = out@;
        let item = args[i].clone();
        out.push(item);
        proof {
            assert(out@ == before.push(args@[i as int]));
            assert(strings_view(out@) =~= strings_view(before).push(args@[i as int]@));
            assert(strings_view(args@)[i as int] == args@[i as int]@);
        }
        i = i + 1;
        assert(strings_view(out@) =~= strings_view(args@).subrange(start as int, i as int));
    }
    out
}

/// Decides where a command line goes: setup, a guarded `pr create` or
/// `api` call, or plain passthrough.
pub fn route(args: &[String]) -> (r: Route)
    ensures
        r@ == route_of(strings_view(args@)),
{
    let ghost av = strings_view(args@);
    if args.len() == 0 {
        return Route::Passthrough;
    }
    let first = chars_of(args[0].as_str());
    assert(av[0] == first@);
    if is_lit(first.as_slice(), "setup") {
        let sub = if args.len() > 1 {
            Some(args[1].clone())
        } else {
            None
        };
        return Route::Setup { sub };
    }
    if is_lit(first.as_slice(), "pr") && args.len() > 1 {
        let second = chars_of(args[1].as_str());
        assert(av[1] == second@);
        if is_lit(second.as_slice(), "create") {
            return Route::PrCreate { flags: copy_from(args, 2) };
        }
    }
    if is_lit(first.as_slice(), "api") {
        return Route::Api { flags: copy_from(args, 1) };
    }
    Route::Passthrough
}

/// What to do with a `pr create` call.
#[derive(Debug)]
pub enum PrPlan {
    /// `--web` opens a browser form: no approval is possible, pass through.
    Bypass,
    /// Neither a title nor `--fill`: gh would ask interactively, refuse.
    Interactive,
    /// Ask for approval of a PR with this title.
    Request { title: String },
}

/// The title shown when the PR takes it from its commits.
pub open spec fn auto_title() -> Seq<char> {
    "(auto-fill from commits)"@
}

/// Decides how a `pr create` call with these flags is handled.
pub fn plan_pr_create(parsed: &PrArgs) -> (r: PrPlan)
    ensures
        parsed.web ==> r is Bypass,
        !parsed.web && !parsed.has_title && !parsed.fill ==> r is Interactive,
        !parsed.web && (parsed.has_title || parsed.fill) ==> (r matches PrPlan::Request { title }
            && title@ == match parsed.title {
            Some(t) => t@,
            None => auto_title(),
        }),
{
    if parsed.web {
        return PrPlan::Bypass;
    }
    if !parsed.has_title && !parsed.fill {
        return PrPlan::Interactive;
    }
    let title = match &parsed.title {
        Some(t) => t.clone(),
        None => "(auto-fill from commits)".to_owned(),
    };
    PrPlan::Request { title }
}

/// Where the PR description comes from.
#[derive(Debug)]
pub enum BodySource {
    /// Given inline.
    Inline { text: String },
    /// To be read from this file; unreadable counts as empty.
    File { path: String },
    /// No description.
    Empty,
}

/// The inline body wins over a body file.
pub fn resolve_body(pr: &PrArgs) -> (r: BodySource)
    ensures
        pr.body is Some ==> (r matches BodySource::Inline { text } && text@ == pr.body->0@),
        pr.body is None && pr.body_file is Some ==> (r matches BodySource::File { path } && path@
            == pr.body_file->0@),
        pr.body is None && pr.body_file is None ==> r is Empty,
{
    if let Some(b) = &pr.body {
        return BodySource::Inline { text: b.clone() };
    }
    if let Some(p) = &pr.body_file {
        return BodySource::File { path: p.clone() };
    }
    BodySource::Empty
}

/// The current branch as reported by git, once trimmed, unless it is empty
/// or a detached `HEAD`.
pub open spec fn current_branch(head: Option<Seq<char>>) -> Option<Seq<char>> {
    match head {
        Some(h) => if trimmed(h).len() == 0 || trimmed(h) == "HEAD"@ {
            None
        } else {
            Some(trimmed(h))
        },
        None => None,
    }
}

/// The `source → base` line for a current branch and a base, either of
/// which may be unknown.
pub open spec fn branch_line(current: Option<Seq<char>>, base: Option<Seq<char>>) -> Seq<char> {
    let from = match current {
        Some(c) => c,
        None => "(current)"@,
    };
    let to = match base {
        Some(b) => b,
        None => "(default branch)"@,
    };
    from + " → "@ + to
}

/// The `source → base` line from an already filtered current branch.
pub fn branch_line_of(current: Option<&str>, base: Option<&str>) -> (r: String)
    ensures
        r@ == branch_line(
            match current {
                Some(c) => Some(c@),
                None => None,
            },
            match base {
                Some(b) => Some(b@),
                None => None,
            },
        ),
{
    let mut out: Vec<char> = Vec::new();
    match current {
        Some(c) => push_str_chars(&mut out, c),
        None => push_str_chars(&mut out, "(current)"),
    }
    push_str_chars(&mut out, " → ");
    match base {
        Some(b) => push_str_chars(&mut out, b),
        None => push_str_chars(&mut out, "(default branch)"),
    }
    string_of(out.as_slice())
}

/// The human-readable branch line of a PR, from the raw output of
/// `git rev-parse --abbrev-ref HEAD` (if git ran) and the base flag.
pub fn branch_info(head: Option<&str>, base: Option<&str>) -> (r: String)
    ensures
        r@ == branch_line(
            current_branch(
                match head {
                    Some(h) => Some(h@),
                    None => None,
                },
            ),
            match base {
                Some(b) => Some(b@),
                None => None,
            },
        ),
{
    let current = match head {
        Some(h) => {
            let t = crate::notify::trim_text(h);
            let tc = chars_of(t.as_str());
            if tc.len() == 0 || is_lit(tc.as_slice(), "HEAD") {
                None
            } else {
                Some(t)
            }
        },
        None => None,
    };
    match current {
        Some(c) => branch_line_of(Some(c.as_str()), base),
        None => branch_line_of(None, base),
    }
}

} // verus!
