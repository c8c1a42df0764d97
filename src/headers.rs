use vstd::prelude::*;
use vstd::string::StringExecFns;
use crate::paths::{comps, path_text, joined_text, display, display_relative};

verus! {

/// How a shader asks for a header: by a quoted name, looked up beside the
/// asking file first, or by an angle-bracket name, looked up under the
/// project's source root only.
#[derive(PartialEq, Eq, Structural, Clone, Copy, Debug)]
pub enum RequestKind {
    Relative,
    Standard,
}

/// The paths at which a requested header may be found.
pub struct HeaderCandidates {
    /// The requested name under the asking file's directory; only for a
    /// relative request.
    pub relative: Option<Vec<String>>,
    /// The requested name under the project's source root.
    pub standard: Vec<String>,
}

/// A header found for a request: the file to read, and the name under which
/// the compiler is told of it.
pub struct ResolvedHeader {
    pub read_path: Vec<String>,
    pub resolved_name: String,
}

/// The error for a relative request from a path with no directory.
pub open spec fn no_parent_message(requested: Seq<Seq<char>>, absolute: bool) -> Seq<char> {
    (if absolute {
        path_text(requested)
    } else {
        joined_text(requested)
    }) + ": expected parent path"@
}

/// The error for a relative request that neither candidate answers.
pub open spec fn relative_not_found_message() -> Seq<char> {
    "relative header path is not found"@
}

/// The error for a standard request with no file under the source root.
pub open spec fn standard_not_found_message() -> Seq<char> {
    "standard header path is not found"@
}

/// `name` put under `dir`; an absolute name stays as it is.
pub open spec fn put_under(dir: Seq<Seq<char>>, name: Seq<Seq<char>>, absolute: bool) -> Seq<
    Seq<char>,
> {
    if absolute {
        name
    } else {
        dir + name
    }
}

/// The candidates for a request of `requested` (absolute where
/// `requested_is_absolute`) of kind `kind` made from the file `requesting`,
/// with `src_root` the project's source root; for a relative request from a
/// path with no parent directory, the error message.
pub fn header_candidates(
    src_root: &Vec<String>,
    requested: &Vec<String>,
    requested_is_absolute: bool,
    kind: RequestKind,
    requesting: &Vec<String>,
) -> (r: Result<HeaderCandidates, String>)
    ensures
        kind == RequestKind::Relative && requesting@.len() == 0 ==> (r matches Err(m) && m@
            == no_parent_message(comps(requested@), requested_is_absolute)),
        kind == RequestKind::Relative && requesting@.len() > 0 ==> (r matches Ok(c) && comps(
            c.standard@,
        ) == put_under(comps(src_root@), comps(requested@), requested_is_absolute)
            && c.relative is Some && comps(c.relative->0@) == put_under(
            comps(requesting@).drop_last(),
            comps(requested@),
            requested_is_absolute,
        )),
        kind == RequestKind::Standard ==> (r matches Ok(c) && comps(c.standard@) == put_under(
            comps(src_root@),
            comps(requested@),
            requested_is_absolute,
        ) && c.relative is None),
{
    let standard = if requested_is_absolute {
        joined(requested, requested, 0)
    } else {
        joined(src_root, requested, src_root.len())
    };
    proof {
        assert(comps(requested@).take(0) + comps(requested@) =~= comps(requested@));
        assert(comps(src_root@).take(src_root@.len() as int) =~= comps(src_root@));
    }
    match kind {
        RequestKind::Standard => Ok(HeaderCandidates { relative: None, standard }),
        RequestKind::Relative => {
            if requesting.len() == 0 {
                let mut m = if requested_is_absolute {
                    display(requested)
                } else {
                    display_relative(requested)
                };
                m.append(": expected parent path");
                Err(m)
            } else {
                let relative = if requested_is_absolute {
                    joined(requested, requested, 0)
                } else {
                    joined(requesting, requested, requesting.len() - 1)
                };
                assert(comps(requesting@).take(requesting@.len() - 1) =~= comps(
                    requesting@,
                ).drop_last());
                Ok(HeaderCandidates { relative: Some(relative), standard })
            }
        },
    }
}

/// The first `n` components of `a` followed by all of `b`.
fn joined(a: &Vec<String>, b: &Vec<String>, n: usize) -> (r: Vec<String>)
    requires
        n <= a@.len(),
    ensures
        comps(r@) == comps(a@).take(n as int) + comps(b@),
{
    let mut r: Vec<String> = Vec::new();
    let mut i: usize = 0;
    while i < n
        invariant
            0 <= i <= n <= a@.len(),
            r@ == a@.take(i as int),
        decreases n - i,
    {
        r.push(a[i].clone());
        i = i + 1;
        assert(r@ =~= a@.take(i as int));
    }
    let mut j: usize = 0;
    while j < b.len()
        invariant
            0 <= j <= b@.len(),
            r@ == a@.take(n as int) + b@.take(j as int),
        decreases b@.len() - j,
    {
        r.push(b[j].clone());
        j = j + 1;
        assert(r@ =~= a@.take(n as int) + b@.take(j as int));
    }
    assert(b@.take(b@.len() as int) =~= b@);
    assert(comps(r@) =~= comps(a@).take(n as int) + comps(b@));
    r
}

/// Which candidate a request reads, given which candidates are files: the
/// relative one where it is a file, else the standard one where it is a
/// file. The resolved name is always the standard path.
pub open spec fn resolution(
    relative: Option<Seq<Seq<char>>>,
    standard: Seq<Seq<char>>,
    relative_is_file: bool,
    standard_is_file: bool,
) -> Result<(Seq<Seq<char>>, Seq<char>), Seq<char>> {
    match relative {
        Some(p) => if relative_is_file {
            Ok((p, path_text(standard)))
        } else if standard_is_file {
            Ok((standard, path_text(standard)))
        } else {
            Err(relative_not_found_message())
        },
        None => if standard_is_file {
            Ok((standard, path_text(standard)))
        } else {
            Err(standard_not_found_message())
        },
    }
}

/// The header that the candidates `c` resolve to, where `relative_is_file`
/// and `standard_is_file` say which of them are files; ignored for a
/// missing relative candidate.
pub fn choose_header(c: &HeaderCandidates, relative_is_file: bool, standard_is_file: bool) -> (r:
    Result<ResolvedHeader, String>)
    ensures
        ({
            let rel = match c.relative {
                Some(p) => Some(comps(p@)),
                None => None,
            };
            match resolution(rel, comps(c.standard@), relative_is_file, standard_is_file) {
                Ok((p, name)) => r matches Ok(h) && comps(h.read_path@) == p && h.resolved_name@
                    == name,
                Err(m) => r matches Err(e) && e@ == m,
            }
        }),
{
    let name = display(&c.standard);
    match &c.relative {
        Some(p) => {
            if relative_is_file {
                Ok(ResolvedHeader { read_path: p.clone(), resolved_name: name })
            } else if standard_is_file {
                Ok(ResolvedHeader { read_path: c.standard.clone(), resolved_name: name })
            } else {
                Err(String::from_str("relative header path is not found"))
            }
        },
        None => {
            if standard_is_file {
                Ok(ResolvedHeader { read_path: c.standard.clone(), resolved_name: name })
            } else {
                Err(String::from_str("standard header path is not found"))
            }
        },
    }
}

} // verus!
