use vstd::prelude::*;
use vstd::string::StringExecFns;

use crate::text::{chars_of, copy_range, string_of, upper_of, uppercase};

verus! {

/// The character that opens and closes a placeholder.
pub const DELIMITER: char = '%';

/// Why a configured path could not be resolved.
#[derive(Debug)]
pub enum PathError {
    /// The path holds a delimiter but is not of the form `%NAME%rest`.
    ConfigurationError,
    /// The placeholder names a variable that the environment does not hold.
    EnvironmentVariableNotFound { name: String },
}

/// `s` holds no delimiter.
pub open spec fn no_delimiter(s: Seq<char>) -> bool {
    forall|i: int| 0 <= i < s.len() ==> s[i] != '%'
}

/// `s` is `%name%suffix`, with no other delimiter.
pub open spec fn is_placeholder(s: Seq<char>, name: Seq<char>, suffix: Seq<char>) -> bool {
    &&& s == seq!['%'] + name + seq!['%'] + suffix
    &&& no_delimiter(name)
    &&& no_delimiter(suffix)
}

/// `s` is a plain path or a path that opens with one placeholder.
pub open spec fn is_well_formed(s: Seq<char>) -> bool {
    no_delimiter(s) || exists|name: Seq<char>, suffix: Seq<char>| is_placeholder(s, name, suffix)
}

/// `key` names the variable `name`, case aside.
pub open spec fn names_var(key: Seq<char>, name: Seq<char>) -> bool {
    upper_of(key) == upper_of(name)
}

/// The value of the first entry of `env` that names `name`.
pub open spec fn env_value(env: Seq<(String, String)>, name: Seq<char>) -> Option<Seq<char>>
    decreases env.len(),
{
    if env.len() == 0 {
        None
    } else if names_var(env[0].0@, name) {
        Some(env[0].1@)
    } else {
        env_value(env.drop_first(), name)
    }
}

/// The placeholder of a path: the variable it names and what follows it.
#[derive(Debug)]
pub struct Placeholder {
    pub name: String,
    pub suffix: String,
}

/// The first delimiter of `v` at or after `from`.
fn find_delimiter(v: &Vec<char>, from: usize) -> (r: Option<usize>)
    requires
        from <= v.len(),
    ensures
        match r {
            Some(k) => from <= k < v.len() && v@[k as int] == '%' && forall|j: int|
                from <= j < k ==> v@[j] != '%',
            None => forall|j: int| from <= j < v.len() ==> v@[j] != '%',
        },
{
    let mut i: usize = from;
    while i < v.len()
        invariant
            from <= i <= v.len(),
            forall|j: int| from <= j < i ==> v@[j] != '%',
        decreases v.len() - i,
    {
        if v[i] == DELIMITER {
            return Some(i);
        }
        i = i + 1;
    }
    None
}

/// Splits `path` into its placeholder, if it has one.
pub fn split_placeholder(path: &str) -> (r: Result<Option<Placeholder>, PathError>)
    ensures
        r matches Ok(None) <==> no_delimiter(path@),
        r matches Ok(Some(p)) ==> is_placeholder(path@, p.name@, p.suffix@),
        r is Err <==> !is_well_formed(path@),
        r is Err ==> r matches Err(PathError::ConfigurationError),
{
    let cs = chars_of(path);
    let n = cs.len();
    let ghost s = path@;
    match find_delimiter(&cs, 0) {
        None => {
            return Ok(None);
        },
        Some(p1) => {
            if p1 != 0 {
                proof {
                    assert forall|name: Seq<char>, suffix: Seq<char>| !is_placeholder(s, name, suffix) by {
                        if is_placeholder(s, name, suffix) {
                            assert(s[0] == '%');
                        }
                    }
                }
                return Err(PathError::ConfigurationError);
            }
            match find_delimiter(&cs, 1) {
                None => {
                    proof {
                        assert forall|name: Seq<char>, suffix: Seq<char>| !is_placeholder(s, name, suffix) by {
                            if is_placeholder(s, name, suffix) {
                                assert(s[name.len() as int + 1] == '%');
                            }
                        }
                    }
                    Err(PathError::ConfigurationError)
                },
                Some(p2) => {
                    match find_delimiter(&cs, p2 + 1) {
                        Some(p3) => {
                            proof {
                                assert forall|name: Seq<char>, suffix: Seq<char>| !is_placeholder(s, name, suffix) by {
                                    if is_placeholder(s, name, suffix) {
                                        let m: int = name.len() as int + 1;
                                        if m < p2 {
                                            assert(s[m] == '%');
                                        } else if m > p2 {
                                            assert(s[p2 as int] == name[p2 - 1]);
                                        } else {
                                            assert(s[p3 as int] == suffix[p3 - m - 1]);
                                        }
                                    }
                                }
                            }
                            Err(PathError::ConfigurationError)
                        },
                        None => {
                            let name = copy_range(&cs, 1, p2);
                            let suffix = copy_range(&cs, p2 + 1, n);
                            let p = Placeholder { name: string_of(&name), suffix: string_of(&suffix) };
                            proof {
                                assert(s =~= seq!['%'] + p.name@ + seq!['%'] + p.suffix@);
                                assert(is_placeholder(s, p.name@, p.suffix@));
                            }
                            Ok(Some(p))
                        },
                    }
                },
            }
        },
    }
}

/// The value of the first entry of `env` whose key names `name`, case aside.
pub fn lookup_env(env: &Vec<(String, String)>, name: &str) -> (r: Option<String>)
    ensures
        match env_value(env@, name@) {
            Some(v) => r is Some && r->Some_0@ == v,
            None => r is None,
        },
{
    let wanted = uppercase(name);
    let mut i: usize = 0;
    assert(env@.subrange(0, env.len() as int) =~= env@);
    while i < env.len()
        invariant
            i <= env.len(),
            wanted@ == upper_of(name@),
            env_value(env@, name@) == env_value(env@.subrange(i as int, env.len() as int), name@),
        decreases env.len() - i,
    {
        let ghost rest = env@.subrange(i as int, env.len() as int);
        assert(rest.drop_first() =~= env@.subrange(i + 1, env.len() as int));
        let key = uppercase(env[i].0.as_str());
        if key == wanted {
            return Some(env[i].1.clone());
        }
        i = i + 1;
    }
    None
}

/// Expands the placeholder that opens `path`, if any, with its value in `env`.
/// A path without a delimiter comes back unchanged.
pub fn get_env_path(path: &str, env: &Vec<(String, String)>) -> (r: Result<String, PathError>)
    ensures
        no_delimiter(path@) ==> r is Ok && r->Ok_0@ == path@,
        !is_well_formed(path@) ==> r matches Err(PathError::ConfigurationError),
        forall|name: Seq<char>, suffix: Seq<char>|
            #![trigger is_placeholder(path@, name, suffix)]
            is_placeholder(path@, name, suffix) ==> match env_value(env@, name) {
                Some(v) => r is Ok && r->Ok_0@ == v + suffix,
                None => r matches Err(PathError::EnvironmentVariableNotFound { name: n })
                    && n@ == name,
            },
{
    match split_placeholder(path) {
        Err(e) => Err(e),
        Ok(None) => {
            proof {
                assert forall|name: Seq<char>, suffix: Seq<char>| !is_placeholder(path@, name, suffix) by {
                    if is_placeholder(path@, name, suffix) {
                        assert(path@[0] == '%');
                    }
                }
            }
            Ok(path.to_owned())
        },
        Ok(Some(p)) => {
            proof {
                lemma_placeholder_unique(path@, p.name@, p.suffix@);
            }
            match lookup_env(env, p.name.as_str()) {
                None => Err(PathError::EnvironmentVariableNotFound { name: p.name }),
                Some(v) => {
                    let mut out = v;
                    out.append(p.suffix.as_str());
                    Ok(out)
                },
            }
        },
    }
}

/// A path splits into a placeholder in at most one way.
pub proof fn lemma_placeholder_unique(s: Seq<char>, name: Seq<char>, suffix: Seq<char>)
    requires
        is_placeholder(s, name, suffix),
    ensures
        forall|n2: Seq<char>, s2: Seq<char>|
            #![trigger is_placeholder(s, n2, s2)]
            is_placeholder(s, n2, s2) ==> n2 == name && s2 == suffix,
{
    assert forall|n2: Seq<char>, s2: Seq<char>| is_placeholder(s, n2, s2) implies n2 == name
        && s2 == suffix by {
        let a = name.len() as int;
        let b = n2.len() as int;
        if a < b {
            assert(s[a + 1] == '%');
            assert(s[a + 1] == n2[a]);
        } else if b < a {
            assert(s[b + 1] == '%');
            assert(s[b + 1] == name[b]);
        }
        assert(name =~= s.subrange(1, a + 1));
        assert(n2 =~= s.subrange(1, b + 1));
        assert(suffix =~= s.subrange(a + 2, s.len() as int));
        assert(s2 =~= s.subrange(b + 2, s.len() as int));
    }
}

} // verus!
