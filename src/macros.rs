//! Messages and value extraction for command-line arguments.

use vstd::prelude::*;

verus! {

/// The message for an argument `other` that subcommand `sub` of program
/// `app` does not accept.
pub open spec fn invalid_arg_text(app: Seq<char>, sub: Seq<char>, other: Seq<char>) -> Seq<
    char,
> {
    let context = if sub.len() == 0 {
        app
    } else {
        app + ": "@ + sub
    };
    context + ": invalid argument '"@ + other + "'\nUse '"@ + app + " --help' to see available options."@
}

/// Fails with the message for an argument `other` that subcommand `sub`
/// (empty for the program itself) of program `app` does not accept.
pub fn invalid_arg(app: &str, sub: &str, other: &str) -> (r: Result<(), String>)
    ensures
        r is Err,
        r->Err_0@ == invalid_arg_text(app@, sub@, other@),
{
    let context = if sub.is_empty() {
        String::from_str(app)
    } else {
        String::from_str(app).concat(": ").concat(sub)
    };
    Err(
        context.concat(": invalid argument '").concat(other).concat("'\nUse '").concat(app).concat(
            " --help' to see available options.",
        ),
    )
}

/// The message for a subcommand `sub` of program `app` given no parameter,
/// or no essential one.
pub open spec fn missing_arg_text(app: Seq<char>, sub: Seq<char>, essential: bool) -> Seq<char> {
    app + ": "@ + sub + (if essential {
        ": no essential parameter specified"@
    } else {
        ": no parameter specified"@
    }) + "\nUse '"@ + app + " --help' to see available options."@
}

/// Fails with the message for a subcommand `sub` of program `app` given no
/// parameter, or no essential one when `essential` is set.
pub fn missing_arg(app: &str, sub: &str, essential: bool) -> (r: Result<(), String>)
    ensures
        r is Err,
        r->Err_0@ == missing_arg_text(app@, sub@, essential),
{
    let what = if essential {
        ": no essential parameter specified"
    } else {
        ": no parameter specified"
    };
    Err(
        String::from_str(app).concat(": ").concat(sub).concat(what).concat("\nUse '").concat(
            app,
        ).concat(" --help' to see available options."),
    )
}

/// The position of the first `=` of `s`, if any.
pub open spec fn first_eq(s: Seq<char>) -> Option<int> {
    if exists|i: int| 0 <= i < s.len() && s[i] == '=' {
        Some(choose|i: int| 0 <= i < s.len() && s[i] == '=' && forall|j: int| 0 <= j < i ==> s[j] != '=')
    } else {
        None
    }
}

/// The value that `arg` gives, inline after its first `=`, else the
/// following argument `next` when that is neither empty nor an option.
pub open spec fn value_of(arg: Seq<char>, next: Option<Seq<char>>) -> Option<Seq<char>> {
    match first_eq(arg) {
        Some(p) => if p + 1 < arg.len() {
            Some(arg.skip(p + 1))
        } else {
            None
        },
        None => match next {
            Some(n) => if n.len() > 0 && n[0] != '-' {
                Some(n)
            } else {
                None
            },
            None => None,
        },
    }
}

/// The usage message for option `arg` of subcommand `sub` of program `cmd`
/// given no value named `val_name`.
pub open spec fn missing_value_text(
    cmd: Seq<char>,
    sub: Seq<char>,
    val_name: Seq<char>,
    arg: Seq<char>,
) -> Seq<char> {
    let key = match first_eq(arg) {
        Some(p) => arg.take(p),
        None => arg,
    };
    let sp = if first_eq(arg) is Some {
        "="@
    } else {
        " "@
    };
    cmd + ": "@ + sub + ": "@ + key + " requires a <"@ + val_name + ">.\nUsage: "@ + cmd + " "@ + sub
        + " "@ + key + sp + "<"@ + val_name + ">"@
}

/// The position of the first `=` of `s`.
fn find_eq(s: &str) -> (r: Option<usize>)
    ensures
        r is None <==> first_eq(s@) is None,
        r is Some ==> r->Some_0 as int == first_eq(s@)->Some_0 && r->Some_0 < s@.len(),
{
    let n = s.unicode_len();
    let mut i: usize = 0;
    while i < n
        invariant
            n == s@.len(),
            i <= n,
            forall|j: int| 0 <= j < i ==> s@[j] != '=',
        decreases n - i,
    {
        if s.get_char(i) == '=' {
            proof {
                let p = first_eq(s@)->Some_0;
                assert(0 <= p < s@.len() && s@[p] == '=' && forall|j: int| 0 <= j < p ==> s@[j] != '=');
                if p < i {
                } else if p > i {
                    assert(s@[i as int] == '=');
                }
            }
            return Some(i);
        }
        i = i + 1;
    }
    None
}

/// Reads the value of option `arg` of subcommand `sub`: inline after its
/// first `=` (`--key=value`), else the following argument `next` when that
/// is neither empty nor another option (`--key value`). Without a value it
/// fails with a usage message that names program `cmd` and `val_name`.
pub fn parse_value(cmd: &str, sub: &str, val_name: &str, arg: &str, next: Option<&str>) -> (r:
    Result<String, String>)
    ensures
        r is Ok <==> value_of(arg@, opt_view(next)) is Some,
        r is Ok ==> r->Ok_0@ == value_of(arg@, opt_view(next))->Some_0,
        r is Err ==> r->Err_0@ == missing_value_text(cmd@, sub@, val_name@, arg@),
{
    let n = arg.unicode_len();
    let eq = find_eq(arg);
    let extracted: Option<String> = match eq {
        Some(p) => {
            if p + 1 < n {
                Some(String::from_str(arg.substring_char(p + 1, n)))
            } else {
                None
            }
        },
        None => match next {
            Some(v) => {
                if v.unicode_len() > 0 && v.get_char(0) != '-' {
                    Some(String::from_str(v))
                } else {
                    None
                }
            },
            None => None,
        },
    };
    match extracted {
        Some(value) => Ok(value),
        None => {
            let key = match eq {
                Some(p) => arg.substring_char(0, p),
                None => arg,
            };
            let sp = match eq {
                Some(_) => "=",
                None => " ",
            };
            Err(
                String::from_str(cmd).concat(": ").concat(sub).concat(": ").concat(key).concat(
                    " requires a <",
                ).concat(val_name).concat(">.\nUsage: ").concat(cmd).concat(" ").concat(
                    sub,
                ).concat(" ").concat(key).concat(sp).concat("<").concat(val_name).concat(">"),
            )
        },
    }
}

/// The view of an optional string.
pub open spec fn opt_view(o: Option<&str>) -> Option<Seq<char>> {
    match o {
        Some(s) => Some(s@),
        None => None,
    }
}

} // verus!
