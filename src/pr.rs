use vstd::prelude::*;
use crate::notify::strings_view;
use crate::text::{chars_of, is_lit, starts_with, string_of, strip_lit};

verus! {

/// What a `gh pr create` flag list says about the PR to be created.
/// Unknown flags are ignored; the flags themselves are passed on unchanged.
#[derive(Debug)]
pub struct PrArgs {
    pub title: Option<String>,
    pub body: Option<String>,
    pub body_file: Option<String>,
    pub base: Option<String>,
    pub draft: bool,
    pub fill: bool,
    pub web: bool,
    /// True only when a title was given explicitly.
    pub has_title: bool,
}

pub struct PrArgsView {
    pub title: Option<Seq<char>>,
    pub body: Option<Seq<char>>,
    pub body_file: Option<Seq<char>>,
    pub base: Option<Seq<char>>,
    pub draft: bool,
    pub fill: bool,
    pub web: bool,
    pub has_title: bool,
}

pub open spec fn opt_view(o: Option<String>) -> Option<Seq<char>> {
    match o {
        Some(s) => Some(s@),
        None => None,
    }
}

impl View for PrArgs {
    type V = PrArgsView;

    open spec fn view(&self) -> PrArgsView {
        PrArgsView {
            title: opt_view(self.title),
            body: opt_view(self.body),
            body_file: opt_view(self.body_file),
            base: opt_view(self.base),
            draft: self.draft,
            fill: self.fill,
            web: self.web,
            has_title: self.has_title,
        }
    }
}

/// Nothing given yet.
pub open spec fn pr_empty() -> PrArgsView {
    PrArgsView {
        title: None,
        body: None,
        body_file: None,
        base: None,
        draft: false,
        fill: false,
        web: false,
        has_title: false,
    }
}

impl Default for PrArgs {
    fn default() -> (r: PrArgs)
        ensures
            r@ == pr_empty(),
    {
        PrArgs {
            title: None,
            body: None,
            body_file: None,
            base: None,
            draft: false,
            fill: false,
            web: false,
            has_title: false,
        }
    }
}

/// One scanning step at position `i`: the flags seen so far and the
/// position of the next flag.
pub open spec fn pr_step(args: Seq<Seq<char>>, i: int, acc: PrArgsView) -> (PrArgsView, int) {
    let a = args[i];
    let has_value = i + 1 < args.len();
    if (a == "--title"@ || a == "-t"@) && has_value {
        (PrArgsView { title: Some(args[i + 1]), has_title: true, ..acc }, i + 2)
    } else if (a == "--body"@ || a == "-b"@) && has_value {
        (PrArgsView { body: Some(args[i + 1]), ..acc }, i + 2)
    } else if (a == "--body-file"@ || a == "-F"@) && has_value {
        (PrArgsView { body_file: Some(args[i + 1]), ..acc }, i + 2)
    } else if (a == "--base"@ || a == "-B"@) && has_value {
        (PrArgsView { base: Some(args[i + 1]), ..acc }, i + 2)
    } else if a == "--draft"@ || a == "-d"@ {
        (PrArgsView { draft: true, ..acc }, i + 1)
    } else if a == "--fill"@ || a == "--fill-verbose"@ {
        (PrArgsView { fill: true, ..acc }, i + 1)
    } else if a == "--web"@ || a == "-w"@ {
        (PrArgsView { web: true, ..acc }, i + 1)
    } else if a == "--title"@ || a == "-t"@ || a == "--body"@ || a == "-b"@ || a == "--body-file"@
        || a == "-F"@ || a == "--base"@ || a == "-B"@ {
        (acc, i + 1)
    } else if starts_with(a, "--title="@) {
        (PrArgsView { title: Some(a.skip(8)), has_title: true, ..acc }, i + 1)
    } else if starts_with(a, "--body="@) {
        (PrArgsView { body: Some(a.skip(7)), ..acc }, i + 1)
    } else if starts_with(a, "--base="@) {
        (PrArgsView { base: Some(a.skip(7)), ..acc }, i + 1)
    } else if starts_with(a, "--body-file="@) {
        (PrArgsView { body_file: Some(a.skip(12)), ..acc }, i + 1)
    } else {
        (acc, i + 1)
    }
}

/// The flags from position `i` on, scanned over `acc`.
pub open spec fn pr_scan(args: Seq<Seq<char>>, i: int, acc: PrArgsView) -> PrArgsView
    decreases args.len() - i,
{
    if i < 0 || i >= args.len() {
        acc
    } else {
        let (next, j) = pr_step(args, i, acc);
        pr_scan(args, j, next)
    }
}

/// Scans the raw flag list of `gh pr create` for the options it knows.
pub fn parse_pr_args(args: &[String]) -> (r: PrArgs)
    ensures
        r@ == pr_scan(strings_view(args@), 0, pr_empty()),
{
    let ghost av = strings_view(args@);
    let mut out = PrArgs::default();
    let mut i: usize = 0;
    while i < args.len()
        invariant
            av == strings_view(args@),
            0 <= i <= args@.len(),
            pr_scan(av, 0, pr_empty()) == pr_scan(av, i as int, out@),
        decreases args@.len() - i,
    {
        let a = chars_of(args[i].as_str());
        let has_value = i + 1 < args.len();
        proof {
            assert(av[i as int] == a@);
            if has_value {
                assert(av[i + 1] == args@[i + 1]@);
            }
        }
        let ghost before = out@;
        let ghost i0 = i as int;
        let is_title = is_lit(a.as_slice(), "--title") || is_lit(a.as_slice(), "-t");
        let is_body = is_lit(a.as_slice(), "--body") || is_lit(a.as_slice(), "-b");
        let is_body_file = is_lit(a.as_slice(), "--body-file") || is_lit(a.as_slice(), "-F");
        let is_base = is_lit(a.as_slice(), "--base") || is_lit(a.as_slice(), "-B");
        if is_title && has_value {
            out.title = Some(args[i + 1].clone());
            out.has_title = true;
            i = i + 2;
        } else if is_body && has_value {
            out.body = Some(args[i + 1].clone());
            i = i + 2;
        } else if is_body_file && has_value {
            out.body_file = Some(args[i + 1].clone());
            i = i + 2;
        } else if is_base && has_value {
            out.base = Some(args[i + 1].clone());
            i = i + 2;
        } else if is_lit(a.as_slice(), "--draft") || is_lit(a.as_slice(), "-d") {
            out.draft = true;
            i = i + 1;
        } else if is_lit(a.as_slice(), "--fill") || is_lit(a.as_slice(), "--fill-verbose") {
            out.fill = true;
            i = i + 1;
        } else if is_lit(a.as_slice(), "--web") || is_lit(a.as_slice(), "-w") {
            out.web = true;
            i = i + 1;
        } else if is_title || is_body || is_body_file || is_base {
            i = i + 1;
        } else {
            if let Some(v) = strip_lit(a.as_slice(), "--title=") {
                out.title = Some(string_of(v.as_slice()));
                out.has_title = true;
            } else if let Some(v) = strip_lit(a.as_slice(), "--body=") {
                out.body = Some(string_of(v.as_slice()));
            } else if let Some(v) = strip_lit(a.as_slice(), "--base=") {
                out.base = Some(string_of(v.as_slice()));
            } else if let Some(v) = strip_lit(a.as_slice(), "--body-file=") {
                out.body_file = Some(string_of(v.as_slice()));
            }
            i = i + 1;
        }
        proof {
            reveal_strlit("--title=");
            reveal_strlit("--body=");
            reveal_strlit("--base=");
            reveal_strlit("--body-file=");
            assert(pr_step(av, i0, before) == (out@, i as int));
        }
    }
    out
}

} // verus!
