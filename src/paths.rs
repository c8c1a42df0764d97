use vstd::prelude::*;
use vstd::string::{StringExecFns, StrSliceExecFns};
use std::path::PathBuf;

verus! {

/// Name of the directory, under the project's source root, that holds the
/// foreign-function interface sources.
pub const FFI_DIR_NAME: &'static str = "ffi";

/// Name of the directory, under the foreign-function interface directory, that
/// holds the generated files.
pub const GENERATED_DIR_NAME: &'static str = "generated";

/// The character views of a list of path components.
pub open spec fn comps(p: Seq<String>) -> Seq<Seq<char>> {
    p.map_values(|c: String| c@)
}

/// A plain file or directory name: not empty, no separator, no `:` (which
/// starts a drive prefix on some systems), not `.` or `..`.
pub open spec fn is_normal_component(c: Seq<char>) -> bool {
    &&& c.len() > 0
    &&& !c.contains('/')
    &&& !c.contains('\\')
    &&& !c.contains(':')
    &&& c != "."@
    &&& c != ".."@
}

/// Every component of a path is a plain name.
pub open spec fn all_normal(p: Seq<Seq<char>>) -> bool {
    forall|i: int| 0 <= i < p.len() ==> is_normal_component(#[trigger] p[i])
}

/// A path given by its components, written out with a `/` before each one.
pub open spec fn path_text(p: Seq<Seq<char>>) -> Seq<char>
    decreases p.len(),
{
    if p.len() == 0 {
        Seq::empty()
    } else {
        path_text(p.drop_last()) + "/"@ + p.last()
    }
}

/// Position of the last `.` in `s`, or -1 where there is none.
pub open spec fn last_dot(s: Seq<char>) -> int
    decreases s.len(),
{
    if s.len() == 0 {
        -1
    } else if s.last() == '.' {
        s.len() - 1
    } else {
        last_dot(s.drop_last())
    }
}

/// The extension of a file name: what follows its last `.`, where that dot
/// is not the name's first character.
pub open spec fn extension_of(name: Seq<char>) -> Option<Seq<char>> {
    if last_dot(name) <= 0 {
        None
    } else {
        Some(name.subrange(last_dot(name) + 1, name.len() as int))
    }
}

/// The stem of a file name: the name without its extension and the dot
/// before it.
pub open spec fn stem_of(name: Seq<char>) -> Seq<char> {
    if last_dot(name) <= 0 {
        name
    } else {
        name.subrange(0, last_dot(name))
    }
}

/// The directory that receives the generated files of the shaders in the
/// shader directory `rel` (relative to the shader root).
pub open spec fn destination_dir_of(src_root: Seq<Seq<char>>, rel: Seq<Seq<char>>) -> Seq<
    Seq<char>,
> {
    src_root + seq![FFI_DIR_NAME@, GENERATED_DIR_NAME@] + rel
}

proof fn lemma_last_dot_bounds(s: Seq<char>)
    ensures
        -1 <= last_dot(s) < s.len(),
        last_dot(s) >= 0 ==> s[last_dot(s)] == '.',
        forall|j: int| last_dot(s) < j < s.len() ==> s[j] != '.',
    decreases s.len(),
{
    if s.len() > 0 && s.last() != '.' {
        let t = s.drop_last();
        lemma_last_dot_bounds(t);
        assert forall|j: int| last_dot(s) < j < s.len() implies s[j] != '.' by {
            if j < s.len() - 1 {
                assert(s[j] == t[j]);
            }
        }
    }
}

/// Position of the last `.` in `name`, or -1.
fn find_last_dot(name: &str) -> (r: Option<usize>)
    ensures
        match r {
            Some(k) => k == last_dot(name@),
            None => last_dot(name@) == -1,
        },
{
    let n = name.unicode_len();
    let mut i: usize = n;
    assert(name@.take(n as int) =~= name@);
    while i > 0
        invariant
            i <= n,
            n == name@.len(),
            last_dot(name@) == last_dot(name@.take(i as int)),
        decreases i,
    {
        let c = name.get_char(i - 1);
        assert(name@.take(i as int).drop_last() =~= name@.take(i - 1));
        assert(name@.take(i as int).last() == c);
        if c == '.' {
            return Some(i - 1);
        }
        i = i - 1;
    }
    assert(name@.take(0) =~= Seq::<char>::empty());
    None
}

/// The extension of the file name `name`, as `extension_of` states it.
pub fn extension(name: &str) -> (r: Option<String>)
    ensures
        match (r, extension_of(name@)) {
            (Some(e), Some(x)) => e@ == x,
            (None, None) => true,
            _ => false,
        },
{
    assert(name@.take(name@.len() as int) =~= name@);
    let k = find_last_dot(name);
    proof {
        lemma_last_dot_bounds(name@);
    }
    match k {
        Some(k) if k > 0 => {
            let n = name.unicode_len();
            Some(String::from_str(name.substring_char(k + 1, n)))
        },
        _ => None,
    }
}

/// The stem of the file name `name`, as `stem_of` states it.
pub fn stem(name: &str) -> (r: String)
    ensures
        r@ == stem_of(name@),
{
    assert(name@.take(name@.len() as int) =~= name@);
    let k = find_last_dot(name);
    proof {
        lemma_last_dot_bounds(name@);
    }
    match k {
        Some(k) if k > 0 => String::from_str(name.substring_char(0, k)),
        _ => String::from_str(name),
    }
}

/// `path_text` of the components of `p`.
pub fn display(p: &Vec<String>) -> (r: String)
    ensures
        r@ == path_text(comps(p@)),
{
    let mut s = String::new();
    let mut i: usize = 0;
    while i < p.len()
        invariant
            0 <= i <= p.len(),
            s@ == path_text(comps(p@).take(i as int)),
        decreases p.len() - i,
    {
        s.append("/");
        s.append(p[i].as_str());
        i = i + 1;
        assert(comps(p@).take(i as int).drop_last() =~= comps(p@).take(i - 1));
    }
    assert(comps(p@).take(p.len() as int) =~= comps(p@));
    s
}

/// The number of leading components that `a` and `b` share.
pub open spec fn common_prefix_len(a: Seq<Seq<char>>, b: Seq<Seq<char>>) -> nat
    decreases a.len(),
{
    if a.len() == 0 || b.len() == 0 || a[0] != b[0] {
        0
    } else {
        1 + common_prefix_len(a.skip(1), b.skip(1))
    }
}

/// Relies on pathdiff::diff_paths on two relative paths of plain names: past
/// their shared leading components, one `..` for each component left in
/// `base`, then the rest of `path`. Where `base` starts `path`, that is the
/// rest of `path`.
#[verifier::external_body]
fn diff_components(path: &Vec<String>, base: &Vec<String>) -> (r: Option<Vec<String>>)
    requires
        all_normal(comps(path@)),
        all_normal(comps(base@)),
    ensures
        ({
            let k = common_prefix_len(comps(path@), comps(base@)) as int;
            r is Some && comps(r->0@) == Seq::new((base@.len() - k) as nat, |i: int| ".."@) + comps(
                path@,
            ).skip(k)
        }),
        base@.len() <= path@.len() && comps(path@).take(base@.len() as int) == comps(base@) ==> (
        r is Some && comps(r->0@) == comps(path@).skip(base@.len() as int)),
{
    let p: PathBuf = path.iter().collect();
    let b: PathBuf = base.iter().collect();
    pathdiff::diff_paths(&p, &b).map(
        |d| d.components().map(|c| c.as_os_str().to_string_lossy().into_owned()).collect(),
    )
}

/// The directory of the shader file `file_path` relative to the shader root
/// `shader_root`, or `None` where pathdiff finds no such path.
pub fn relative_dir(shader_root: &Vec<String>, file_path: &Vec<String>) -> (r: Option<Vec<String>>)
    requires
        file_path@.len() > 0,
        all_normal(comps(shader_root@)),
        all_normal(comps(file_path@)),
    ensures
        ({
            let parent = comps(file_path@).drop_last();
            shader_root@.len() <= parent.len() && parent.take(shader_root@.len() as int) == comps(
                shader_root@,
            ) ==> r is Some && comps(r->0@) == parent.skip(shader_root@.len() as int)
        }),
{
    let mut parent: Vec<String> = Vec::new();
    let mut i: usize = 0;
    while i + 1 < file_path.len()
        invariant
            0 <= i < file_path.len(),
            parent@ == file_path@.take(i as int),
        decreases file_path.len() - i,
    {
        parent.push(file_path[i].clone());
        i = i + 1;
        assert(parent@ =~= file_path@.take(i as int));
    }
    assert(comps(parent@) =~= comps(file_path@).drop_last());
    diff_components(&parent, shader_root)
}

/// Appends the components of `tail` to `p`.
fn extend_path(p: &mut Vec<String>, tail: &Vec<String>)
    ensures
        comps(final(p)@) == comps(old(p)@) + comps(tail@),
{
    let ghost start = p@;
    let mut i: usize = 0;
    while i < tail.len()
        invariant
            0 <= i <= tail.len(),
            p@ == start + tail@.take(i as int),
        decreases tail.len() - i,
    {
        p.push(tail[i].clone());
        i = i + 1;
        assert(p@ =~= start + tail@.take(i as int));
    }
    assert(tail@.take(tail.len() as int) =~= tail@);
    assert(comps(p@) =~= comps(start) + comps(tail@));
}

/// The directory that receives the generated files of the shaders of the
/// shader directory `rel`, under the project's source root `src_root`.
pub fn destination_dir(src_root: &Vec<String>, rel: &Vec<String>) -> (r: Vec<String>)
    ensures
        comps(r@) == destination_dir_of(comps(src_root@), comps(rel@)),
{
    let mut r: Vec<String> = Vec::new();
    extend_path(&mut r, src_root);
    r.push(String::from_str(FFI_DIR_NAME));
    r.push(String::from_str(GENERATED_DIR_NAME));
    extend_path(&mut r, rel);
    assert(comps(r@) =~= destination_dir_of(comps(src_root@), comps(rel@)));
    r
}

/// A relative path given by its components, written out with a `/` between
/// two of them.
pub open spec fn joined_text(p: Seq<Seq<char>>) -> Seq<char>
    decreases p.len(),
{
    if p.len() == 0 {
        Seq::empty()
    } else if p.len() == 1 {
        p[0]
    } else {
        joined_text(p.drop_last()) + "/"@ + p.last()
    }
}

/// `joined_text` of the components of `p`.
pub fn display_relative(p: &Vec<String>) -> (r: String)
    ensures
        r@ == joined_text(comps(p@)),
{
    let mut s = String::new();
    let mut i: usize = 0;
    while i < p.len()
        invariant
            0 <= i <= p.len(),
            s@ == joined_text(comps(p@).take(i as int)),
        decreases p.len() - i,
    {
        if i > 0 {
            s.append("/");
        }
        s.append(p[i].as_str());
        i = i + 1;
        assert(comps(p@).take(i as int).drop_last() =~= comps(p@).take(i - 1));
        if i == 1 {
            assert(s@ =~= joined_text(comps(p@).take(i as int)));
        }
    }
    assert(comps(p@).take(p.len() as int) =~= comps(p@));
    s
}

/// Whether two texts are equal.
pub fn same_text(a: &str, b: &str) -> (r: bool)
    ensures
        r == (a@ == b@),
{
    let n = a.unicode_len();
    if n != b.unicode_len() {
        return false;
    }
    let mut i: usize = 0;
    while i < n
        invariant
            0 <= i <= n,
            n == a@.len(),
            n == b@.len(),
            a@.take(i as int) == b@.take(i as int),
        decreases n - i,
    {
        if a.get_char(i) != b.get_char(i) {
            return false;
        }
        i = i + 1;
        assert(a@.take(i as int) =~= a@.take(i - 1).push(a@[i - 1]));
        assert(b@.take(i as int) =~= b@.take(i - 1).push(b@[i - 1]));
    }
    assert(a@.take(n as int) =~= a@);
    assert(b@.take(n as int) =~= b@);
    true
}

/// Whether `c` holds the character `x`.
fn has_char(c: &str, x: char) -> (r: bool)
    ensures
        r == c@.contains(x),
{
    let n = c.unicode_len();
    let mut i: usize = 0;
    while i < n
        invariant
            0 <= i <= n,
            n == c@.len(),
            forall|j: int| 0 <= j < i ==> c@[j] != x,
        decreases n - i,
    {
        if c.get_char(i) == x {
            return true;
        }
        i = i + 1;
    }
    false
}

/// Whether `c` is a plain file or directory name.
pub fn is_plain_name(c: &str) -> (r: bool)
    ensures
        r == is_normal_component(c@),
{
    c.unicode_len() > 0 && !has_char(c, '/') && !has_char(c, '\\') && !has_char(c, ':')
        && !same_text(c, ".")
        && !same_text(c, "..")
}

/// Whether every component of `p` is a plain name.
pub fn is_plain_path(p: &Vec<String>) -> (r: bool)
    ensures
        r == all_normal(comps(p@)),
{
    let mut i: usize = 0;
    while i < p.len()
        invariant
            0 <= i <= p.len(),
            forall|j: int| 0 <= j < i ==> is_normal_component(#[trigger] comps(p@)[j]),
        decreases p.len() - i,
    {
        if !is_plain_name(p[i].as_str()) {
            assert(!is_normal_component(comps(p@)[i as int]));
            return false;
        }
        i = i + 1;
    }
    true
}

/// The directory `parent` lies under `root`.
pub open spec fn is_under(parent: Seq<Seq<char>>, root: Seq<Seq<char>>) -> bool {
    root.len() <= parent.len() && parent.take(root.len() as int) == root
}

/// Whether the directory of the file `file` lies under `root`.
pub fn parent_is_under(file: &Vec<String>, root: &Vec<String>) -> (r: bool)
    requires
        file@.len() > 0,
    ensures
        r == is_under(comps(file@).drop_last(), comps(root@)),
{
    if root.len() > file.len() - 1 {
        return false;
    }
    let ghost parent = comps(file@).drop_last();
    let mut i: usize = 0;
    while i < root.len()
        invariant
            0 <= i <= root@.len(),
            file@.len() > 0,
            root@.len() <= parent.len(),
            parent.len() == file@.len() - 1,
            parent == comps(file@).drop_last(),
            parent.take(i as int) == comps(root@).take(i as int),
        decreases root@.len() - i,
    {
        if !same_text(root[i].as_str(), file[i].as_str()) {
            assert(parent[i as int] == file@[i as int]@);
            assert(parent.take(root@.len() as int)[i as int] != comps(root@)[i as int]);
            return false;
        }
        i = i + 1;
        assert(parent.take(i as int) =~= comps(root@).take(i as int));
    }
    assert(comps(root@).take(root@.len() as int) =~= comps(root@));
    true
}

} // verus!
