use vstd::prelude::*;
use crate::notify::strings_view;
use crate::pr::opt_view;
use crate::text::{chars_of, is_lit, starts_with, string_of, strip_lit};

verus! {

/// What a `gh api` flag list says about the call to be made.
#[derive(Debug)]
pub struct ApiArgs {
    /// HTTP method, upper case (e.g. "PATCH").
    pub method: String,
    /// The endpoint, the first positional argument.
    pub endpoint: Option<String>,
    /// `key=value` pairs given by field flags, in order.
    pub fields: Vec<String>,
    /// True for the methods that change state: POST, PATCH, PUT, DELETE.
    pub is_mutating: bool,
}

pub struct ApiArgsView {
    pub method: Seq<char>,
    pub endpoint: Option<Seq<char>>,
    pub fields: Seq<Seq<char>>,
    pub is_mutating: bool,
}

impl View for ApiArgs {
    type V = ApiArgsView;

    open spec fn view(&self) -> ApiArgsView {
        ApiArgsView {
            method: self.method@,
            endpoint: opt_view(self.endpoint),
            fields: strings_view(self.fields@),
            is_mutating: self.is_mutating,
        }
    }
}

impl Default for ApiArgs {
    fn default() -> (r: ApiArgs)
        ensures
            r@ == (ApiArgsView { method: seq![], endpoint: None, fields: seq![], is_mutating: false }),
    {
        let r = ApiArgs { method: String::new(), endpoint: None, fields: Vec::new(), is_mutating: false };
        assert(r@.fields =~= Seq::<Seq<char>>::empty());
        r
    }
}

/// What `str::to_uppercase` makes of a text: it depends on the characters alone.
pub uninterp spec fn upper_of(s: Seq<char>) -> Seq<char>;

/// Relies on `str::to_uppercase`: the upper-case form, a function of the
/// characters alone.
#[verifier::external_body]
fn uppercase(s: &[char]) -> (r: Vec<char>)
    ensures
        r@ == upper_of(s@),
{
    s.iter().collect::<String>().to_uppercase().chars().collect()
}

/// The state of a scan: the method as given (empty if none yet), the
/// endpoint and the fields.
pub struct ApiScanView {
    pub method: Seq<char>,
    pub endpoint: Option<Seq<char>>,
    pub fields: Seq<Seq<char>>,
}

/// Flags that take a value that does not matter here.
pub open spec fn is_ignored_valued_flag(a: Seq<char>) -> bool {
    a == "--header"@ || a == "-H"@ || a == "--jq"@ || a == "-q"@ || a == "--template"@ || a
        == "-t"@ || a == "--input"@ || a == "--cache"@
}

/// One scanning step at position `i`: the state after it and the position
/// of the next flag.
pub open spec fn api_step(args: Seq<Seq<char>>, i: int, acc: ApiScanView) -> (ApiScanView, int) {
    let a = args[i];
    let has_value = i + 1 < args.len();
    let method_flag = a == "--method"@ || a == "-X"@;
    let field_flag = a == "--field"@ || a == "-f"@ || a == "--raw-field"@ || a == "-F"@;
    if method_flag && has_value {
        (ApiScanView { method: upper_of(args[i + 1]), ..acc }, i + 2)
    } else if field_flag && has_value {
        (ApiScanView { fields: acc.fields.push(args[i + 1]), ..acc }, i + 2)
    } else if method_flag || field_flag {
        (acc, i + 1)
    } else if is_ignored_valued_flag(a) {
        (acc, if has_value { i + 2 } else { i + 1 })
    } else if starts_with(a, "--method="@) {
        (ApiScanView { method: upper_of(a.skip(9)), ..acc }, i + 1)
    } else if starts_with(a, "--field="@) {
        (ApiScanView { fields: acc.fields.push(a.skip(8)), ..acc }, i + 1)
    } else if starts_with(a, "--raw-field="@) {
        (ApiScanView { fields: acc.fields.push(a.skip(12)), ..acc }, i + 1)
    } else if !starts_with(a, "-"@) && acc.endpoint is None {
        (ApiScanView { endpoint: Some(a), ..acc }, i + 1)
    } else {
        (acc, i + 1)
    }
}

/// The flags from position `i` on, scanned over `acc`.
pub open spec fn api_scan(args: Seq<Seq<char>>, i: int, acc: ApiScanView) -> ApiScanView
    decreases args.len() - i,
{
    if i < 0 || i >= args.len() {
        acc
    } else {
        let (next, j) = api_step(args, i, acc);
        api_scan(args, j, next)
    }
}

/// Whether `m` names a method that changes state.
pub open spec fn mutating(m: Seq<char>) -> bool {
    m == "POST"@ || m == "PATCH"@ || m == "PUT"@ || m == "DELETE"@
}

/// The method used when none is given: POST with fields, GET without.
pub open spec fn default_method(fields: Seq<Seq<char>>) -> Seq<char> {
    if fields.len() == 0 {
        "GET"@
    } else {
        "POST"@
    }
}

/// The parsed arguments of a `gh api` flag list.
pub open spec fn api_parse(args: Seq<Seq<char>>) -> ApiArgsView {
    let s = api_scan(args, 0, ApiScanView { method: seq![], endpoint: None, fields: seq![] });
    let method = if s.method.len() == 0 {
        default_method(s.fields)
    } else {
        s.method
    };
    ApiArgsView { method, endpoint: s.endpoint, fields: s.fields, is_mutating: mutating(method) }
}

/// Whether `method` (upper case) changes state.
pub fn is_mutating_method(method: &str) -> (r: bool)
    ensures
        r == mutating(method@),
{
    let m = chars_of(method);
    is_lit(m.as_slice(), "POST") || is_lit(m.as_slice(), "PATCH") || is_lit(m.as_slice(), "PUT")
        || is_lit(m.as_slice(), "DELETE")
}

/// Scans the raw flags of `gh api` for the method, endpoint and fields shown
/// in the approval request. Unknown flags are ignored.
pub fn parse_api_args(args: &[String]) -> (r: ApiArgs)
    ensures
        r@ == api_parse(strings_view(args@)),
{
    let ghost av = strings_view(args@);
    let mut method: Vec<char> = Vec::new();
    let mut endpoint: Option<String> = None;
    let mut fields: Vec<String> = Vec::new();
    let ghost init = ApiScanView { method: seq![], endpoint: None, fields: seq![] };
    proof {
        assert(strings_view(fields@) =~= Seq::<Seq<char>>::empty());
    }
    let mut i: usize = 0;
    while i < args.len()
        invariant
            av == strings_view(args@),
            0 <= i <= args@.len(),
            api_scan(av, 0, init) == api_scan(
                av,
                i as int,
                ApiScanView { method: method@, endpoint: opt_view(endpoint), fields: strings_view(fields@) },
            ),
        decreases args@.len() - i,
    {
        let ghost before = ApiScanView {
            method: method@,
            endpoint: opt_view(endpoint),
            fields: strings_view(fields@),
        };
        let ghost i0 = i as int;
        let ghost fields0 = fields@;
        let a = chars_of(args[i].as_str());
        let has_value = i + 1 < args.len();
        proof {
            assert(av[i as int] == a@);
            if has_value {
                assert(av[i + 1] == args@[i + 1]@);
            }
        }
        let method_flag = is_lit(a.as_slice(), "--method") || is_lit(a.as_slice(), "-X");
        let field_flag = is_lit(a.as_slice(), "--field") || is_lit(a.as_slice(), "-f") || is_lit(
            a.as_slice(),
            "--raw-field",
        ) || is_lit(a.as_slice(), "-F");
        let ignored = is_lit(a.as_slice(), "--header") || is_lit(a.as_slice(), "-H") || is_lit(
            a.as_slice(),
            "--jq",
        ) || is_lit(a.as_slice(), "-q") || is_lit(a.as_slice(), "--template") || is_lit(
            a.as_slice(),
            "-t",
        ) || is_lit(a.as_slice(), "--input") || is_lit(a.as_slice(), "--cache");
        if method_flag && has_value {
            let v = chars_of(args[i + 1].as_str());
            method = uppercase(v.as_slice());
            i = i + 2;
        } else if field_flag && has_value {
            fields.push(args[i + 1].clone());
            i = i + 2;
        } else if method_flag || field_flag {
            i = i + 1;
        } else if ignored {
            i = if has_value { i + 2 } else { i + 1 };
        } else {
            if let Some(v) = strip_lit(a.as_slice(), "--method=") {
                method = uppercase(v.as_slice());
            } else if let Some(v) = strip_lit(a.as_slice(), "--field=") {
                fields.push(string_of(v.as_slice()));
            } else if let Some(v) = strip_lit(a.as_slice(), "--raw-field=") {
                fields.push(string_of(v.as_slice()));
            } else if strip_lit(a.as_slice(), "-").is_none() && endpoint.is_none() {
                endpoint = Some(string_of(a.as_slice()));
            }
            i = i + 1;
        }
        proof {
            reveal_strlit("--method=");
            reveal_strlit("--field=");
            reveal_strlit("--raw-field=");
            assert(strings_view(fields@) =~= strings_view(fields0) || strings_view(fields@)
                =~= strings_view(fields0).push(fields@.last()@));
            assert(api_step(av, i0, before) == (
                ApiScanView { method: method@, endpoint: opt_view(endpoint), fields: strings_view(fields@) },
                i as int,
            ));
        }
    }
    let method = if method.len() == 0 {
        if fields.len() == 0 {
            "GET".to_owned()
        } else {
            "POST".to_owned()
        }
    } else {
        string_of(method.as_slice())
    };
    let is_mutating = is_mutating_method(method.as_str());
    ApiArgs { method, endpoint, fields, is_mutating }
}

} // verus!
