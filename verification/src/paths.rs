//! Paths as text. A path is a string of components separated by `/`, as on
//! the Unix hosts that the generated headers are built on. Repeated separators,
//! a trailing separator and `.` components (other than a leading one) carry no
//! meaning and are passed over; `..` is kept as a component.

use vstd::prelude::*;
use vstd::string::*;
use crate::text::{chars_of, string_of};

verus! {

/// A path that starts at the root directory.
pub open spec fn is_absolute(path: Seq<char>) -> bool {
    path.len() > 0 && path[0] == '/'
}

/// The number of characters at the front of `path` that stand before its
/// components proper: one for the root `/` of an absolute path, one for the
/// leading `.` of a path such as `./a`, else none.
pub open spec fn anchor_len(path: Seq<char>) -> nat {
    if path.len() > 0 && path[0] == '/' {
        1
    } else if path.len() > 0 && path[0] == '.' && (path.len() == 1 || path[1] == '/') {
        1
    } else {
        0
    }
}

/// `path` without the separators and `.` components at its end, but never
/// shorter than `floor` characters.
pub open spec fn trimmed(path: Seq<char>, floor: nat) -> Seq<char>
    decreases path.len(),
{
    if path.len() <= floor || path.len() == 0 {
        path
    } else if path.last() == '/' {
        trimmed(path.drop_last(), floor)
    } else if path.last() == '.' && (path.len() - 1 == floor || path[path.len() - 2] == '/') {
        trimmed(path.drop_last(), floor)
    } else {
        path
    }
}

/// The position after the last `/` in `path`; 0 if it has none.
pub open spec fn final_start(path: Seq<char>) -> nat
    decreases path.len(),
{
    if path.len() == 0 || path.last() == '/' {
        path.len()
    } else {
        final_start(path.drop_last())
    }
}

/// The two characters of the component that names the parent directory.
pub open spec fn parent_component() -> Seq<char> {
    seq!['.', '.']
}

/// The final component of `path` if it names a file or directory: `None` for
/// the root, for an empty path, and where the final component is `..`.
pub open spec fn file_name(path: Seq<char>) -> Option<Seq<char>> {
    let body = trimmed(path, anchor_len(path));
    if body.len() <= anchor_len(path) {
        None
    } else {
        let name = body.subrange(final_start(body) as int, body.len() as int);
        if name == parent_component() {
            None
        } else {
            Some(name)
        }
    }
}

/// `path` without its final component: `None` for the root and for an empty
/// path. The parent of a single relative component is the empty path.
pub open spec fn parent(path: Seq<char>) -> Option<Seq<char>> {
    let body = trimmed(path, anchor_len(path));
    if body.len() <= anchor_len(path) {
        if anchor_len(path) == 1 && !is_absolute(path) {
            Some(Seq::empty())
        } else {
            None
        }
    } else {
        Some(trimmed(body.subrange(0, final_start(body) as int), anchor_len(path)))
    }
}

/// `base` extended by `tail`. An absolute `tail` replaces `base`; otherwise a
/// separator is put between the two unless `base` is empty or already ends in
/// one.
pub open spec fn join(base: Seq<char>, tail: Seq<char>) -> Seq<char> {
    if is_absolute(tail) {
        tail
    } else if base.len() > 0 && base.last() != '/' {
        base.push('/') + tail
    } else {
        base + tail
    }
}

/// The position of the last `.` in `name`, or -1 if it has none.
pub open spec fn last_dot(name: Seq<char>) -> int
    decreases name.len(),
{
    if name.len() == 0 {
        -1
    } else if name.last() == '.' {
        name.len() - 1
    } else {
        last_dot(name.drop_last())
    }
}

/// The extension of the file that `path` names: what follows the last `.` of
/// its file name. A file name without a `.`, or whose only `.` is its first
/// character, has no extension.
pub open spec fn extension(path: Seq<char>) -> Option<Seq<char>> {
    match file_name(path) {
        None => None,
        Some(name) => {
            let dot = last_dot(name);
            if dot <= 0 {
                None
            } else {
                Some(name.subrange(dot + 1, name.len() as int))
            }
        },
    }
}

/// Where a target is looked for: an absolute target where it says, a relative
/// one below the current directory.
pub open spec fn located(target: Seq<char>, current_dir: Seq<char>) -> Seq<char> {
    if is_absolute(target) {
        target
    } else {
        join(current_dir, target)
    }
}

/// The final component starts within the path and holds no separator.
pub proof fn lemma_final_start(path: Seq<char>)
    ensures
        final_start(path) <= path.len(),
        forall|i: int| final_start(path) <= i < path.len() ==> path[i] != '/',
        final_start(path) > 0 ==> path[final_start(path) - 1] == '/',
    decreases path.len(),
{
    if path.len() == 0 || path.last() == '/' {
    } else {
        let init = path.drop_last();
        lemma_final_start(init);
        assert forall|i: int| final_start(path) <= i < path.len() implies path[i] != '/' by {
            if i < init.len() {
                assert(init[i] == path[i]);
            }
        }
        if final_start(path) > 0 {
            assert(init[final_start(path) - 1] == path[final_start(path) - 1]);
        }
    }
}

/// Where `trimmed` stops: above the floor the path ends neither in a
/// separator nor in a `.` component, and what was cut off began with a
/// separator or with a `.` component.
pub proof fn lemma_trimmed_stops(path: Seq<char>, floor: nat)
    ensures
        ({
            let t = trimmed(path, floor);
            &&& t.len() <= path.len()
            &&& path.len() >= floor ==> t.len() >= floor
            &&& t == path.take(t.len() as int)
            &&& t.len() > floor ==> t.last() != '/' && !(t.last() == '.' && (t.len() - 1 == floor
                || t[t.len() - 2] == '/'))
            &&& t.len() < path.len() ==> path[t.len() as int] == '/' || (path[t.len() as int]
                == '.' && (t.len() == floor || path[t.len() - 1] == '/'))
        }),
    decreases path.len(),
{
    if path.len() <= floor || path.len() == 0 {
        assert(path.take(path.len() as int) =~= path);
    } else if path.last() == '/' || (path.last() == '.' && (path.len() - 1 == floor
        || path[path.len() - 2] == '/')) {
        let init = path.drop_last();
        lemma_trimmed_stops(init, floor);
        let t = trimmed(path, floor);
        assert(init.take(t.len() as int) =~= path.take(t.len() as int));
        if t.len() < init.len() {
            assert(init[t.len() as int] == path[t.len() as int]);
            if t.len() > 0 {
                assert(init[t.len() - 1] == path[t.len() - 1]);
            }
        } else {
            assert(t.len() == init.len());
            assert(path[t.len() as int] == path.last());
        }
    } else {
        assert(path.take(path.len() as int) =~= path);
    }
}

/// A name that can be the last component of a path: not empty, without a
/// separator, and neither `.` nor `..`.
pub open spec fn is_plain_name(name: Seq<char>) -> bool {
    &&& name.len() > 0
    &&& forall|k: int| 0 <= k < name.len() ==> name[k] != '/'
    &&& name != seq!['.']
    &&& name != parent_component()
}

/// A file name is a plain name.
pub proof fn lemma_file_name_is_plain(path: Seq<char>)
    requires
        file_name(path) is Some,
    ensures
        is_plain_name(file_name(path)->0),
{
    let floor = anchor_len(path);
    let body = trimmed(path, floor);
    let start = final_start(body) as int;
    let name = body.subrange(start, body.len() as int);
    lemma_final_start(body);
    lemma_trimmed_stops(path, floor);
    assert forall|k: int| 0 <= k < name.len() implies name[k] != '/' by {
        assert(name[k] == body[start + k]);
    }
    assert(name.last() == body.last());
    if name == seq!['.'] {
        assert(name.len() == 1);
        assert(name[0] == '.');
        assert(body.last() == '.');
        if start > 0 {
            assert(body[body.len() - 2] == '/');
        } else {
            assert(body.len() == 1);
            assert(path[0] == body[0]);
        }
    }
}

/// Without a separator in `name`, the final component of `base` followed by
/// `name` starts where `base` ends, provided `base` is empty or ends in a
/// separator.
proof fn lemma_final_start_after(base: Seq<char>, name: Seq<char>)
    requires
        base.len() == 0 || base.last() == '/',
        forall|k: int| 0 <= k < name.len() ==> name[k] != '/',
    ensures
        final_start(base + name) == base.len(),
    decreases name.len(),
{
    let whole = base + name;
    if name.len() == 0 {
        assert(whole =~= base);
    } else {
        assert(whole.last() == name.last());
        assert(whole.drop_last() =~= base + name.drop_last());
        lemma_final_start_after(base, name.drop_last());
    }
}

/// A file joined to a directory under a plain name has that name: the
/// forwarding header that is filed under the name of a header's file is
/// named as that file is.
pub proof fn lemma_join_keeps_the_name(dir: Seq<char>, name: Seq<char>)
    requires
        is_plain_name(name),
    ensures
        file_name(join(dir, name)) == Some(name),
{
    let base = if dir.len() > 0 && dir.last() != '/' {
        dir.push('/')
    } else {
        dir
    };
    let joined = join(dir, name);
    assert(joined =~= base + name);
    let floor = anchor_len(joined);
    assert(joined.last() == name.last());
    assert(parent_component().len() == 2);
    if joined.last() == '.' {
        if name.len() == 1 {
            assert(name =~= seq!['.']);
        } else {
            assert(joined[joined.len() - 2] == name[name.len() - 2]);
            if joined.len() - 1 == floor {
                assert(base.len() == 0);
                assert(joined[0] == name[0]);
                assert(joined[1] == name[1]);
            }
        }
    }
    assert(trimmed(joined, floor) == joined);
    if base.len() == 0 {
        assert(joined[0] == name[0]);
        if floor == 1 {
            if joined.len() == 1 {
                assert(name =~= seq!['.']);
            } else {
                assert(joined[1] == name[1]);
            }
        }
    }
    lemma_final_start_after(base, name);
    assert(joined.subrange(base.len() as int, joined.len() as int) =~= name);
}

/// The length of `trimmed(chars[..len], floor)`.
fn trimmed_len(chars: &Vec<char>, len: usize, floor: usize) -> (n: usize)
    requires
        len <= chars@.len(),
    ensures
        n <= len,
        chars@.take(n as int) == trimmed(chars@.take(len as int), floor as nat),
{
    let mut n: usize = len;
    while n > floor && n > 0 && (chars[n - 1] == '/' || (chars[n - 1] == '.' && (n - 1 == floor
        || chars[n - 2] == '/')))
        invariant
            n <= len <= chars@.len(),
            trimmed(chars@.take(n as int), floor as nat) == trimmed(
                chars@.take(len as int),
                floor as nat,
            ),
        decreases n,
    {
        proof {
            assert(chars@.take(n as int).drop_last() =~= chars@.take(n - 1));
        }
        n -= 1;
    }
    n
}

/// The position after the last `/` in `chars[..len]`.
fn final_start_of(chars: &Vec<char>, len: usize) -> (start: usize)
    requires
        len <= chars@.len(),
    ensures
        start <= len,
        start == final_start(chars@.take(len as int)),
{
    let mut start: usize = len;
    while start > 0 && chars[start - 1] != '/'
        invariant
            start <= len <= chars@.len(),
            final_start(chars@.take(start as int)) == final_start(chars@.take(len as int)),
        decreases start,
    {
        proof {
            assert(chars@.take(start as int).drop_last() =~= chars@.take(start - 1));
        }
        start -= 1;
    }
    start
}

/// The length of the anchor of the path `chars`.
fn anchor_len_of(chars: &Vec<char>) -> (n: usize)
    ensures
        n == anchor_len(chars@),
        n <= chars@.len(),
{
    if chars.len() > 0 && chars[0] == '/' {
        1
    } else if chars.len() > 0 && chars[0] == '.' && (chars.len() == 1 || chars[1] == '/') {
        1
    } else {
        0
    }
}

/// Tells whether `path` starts at the root directory.
pub fn path_is_absolute(path: &str) -> (b: bool)
    ensures
        b == is_absolute(path@),
{
    let chars = chars_of(path);
    chars.len() > 0 && chars[0] == '/'
}

/// The final component of `path`, if it names a file or directory.
pub fn path_file_name(path: &str) -> (name: Option<String>)
    ensures
        name.deep_view() == file_name(path@),
{
    let chars = chars_of(path);
    let floor = anchor_len_of(&chars);
    let end = trimmed_len(&chars, chars.len(), floor);
    proof {
        assert(chars@.take(chars@.len() as int) =~= chars@);
    }
    if end <= floor {
        return None;
    }
    let start = final_start_of(&chars, end);
    let ghost body = chars@.take(end as int);
    proof {
        assert(body.subrange(start as int, end as int) =~= chars@.subrange(
            start as int,
            end as int,
        ));
        assert(parent_component().len() == 2);
    }
    if end - start == 2 && chars[start] == '.' && chars[start + 1] == '.' {
        proof {
            assert(chars@.subrange(start as int, end as int) =~= parent_component());
        }
        return None;
    }
    proof {
        let name = chars@.subrange(start as int, end as int);
        if name.len() == 2 {
            assert(name[0] == chars@[start as int]);
            assert(name[1] == chars@[start + 1]);
        }
    }
    Some(string_of(&chars, start, end))
}

/// `path` without its final component.
pub fn path_parent(path: &str) -> (dir: Option<String>)
    ensures
        dir.deep_view() == parent(path@),
{
    let chars = chars_of(path);
    let floor = anchor_len_of(&chars);
    let end = trimmed_len(&chars, chars.len(), floor);
    proof {
        assert(chars@.take(chars@.len() as int) =~= chars@);
    }
    if end <= floor {
        if floor == 1 && chars[0] != '/' {
            return Some(String::new());
        }
        return None;
    }
    let start = final_start_of(&chars, end);
    let ghost body = chars@.take(end as int);
    proof {
        assert(body.subrange(0, start as int) =~= chars@.take(start as int));
    }
    let stop = trimmed_len(&chars, start, floor);
    proof {
        assert(chars@.subrange(0, stop as int) =~= chars@.take(stop as int));
    }
    Some(string_of(&chars, 0, stop))
}

/// `base` extended by `tail`.
pub fn path_join(base: &str, tail: &str) -> (joined: String)
    ensures
        joined@ == join(base@, tail@),
{
    let head = chars_of(base);
    if path_is_absolute(tail) {
        String::from_str(tail)
    } else if head.len() > 0 && head[head.len() - 1] != '/' {
        let mut joined = String::from_str(base);
        joined.push('/');
        joined.concat(tail)
    } else {
        String::from_str(base).concat(tail)
    }
}

/// Tells whether the file that `path` names has the extension `wanted`.
pub fn has_extension(path: &str, wanted: &str) -> (b: bool)
    ensures
        b == (extension(path@) == Some(wanted@)),
{
    let want = chars_of(wanted);
    match path_file_name(path) {
        None => false,
        Some(name) => {
            let chars = chars_of(name.as_str());
            let total: usize = chars.len();
            // One past the position of the last `.`, or 0 if there is none.
            let mut dot: usize = total;
            proof {
                assert(chars@.take(total as int) =~= chars@);
            }
            while dot > 0 && chars[dot - 1] != '.'
                invariant
                    dot <= chars@.len(),
                    last_dot(chars@.take(dot as int)) == last_dot(chars@),
                decreases dot,
            {
                proof {
                    assert(chars@.take(dot as int).drop_last() =~= chars@.take(dot - 1));
                }
                dot -= 1;
            }
            assert(last_dot(chars@) == dot - 1);
            if dot <= 1 {
                return false;
            }
            let ghost ext = chars@.subrange(dot as int, chars@.len() as int);
            assert(extension(path@) == Some(ext));
            if total - dot != want.len() {
                return false;
            }
            let mut k: usize = 0;
            while k < want.len()
                invariant
                    want@ == wanted@,
                    extension(path@) == Some(ext),
                    1 < dot <= chars@.len() == total,
                    chars@.len() - dot == want@.len(),
                    k <= want@.len(),
                    ext == chars@.subrange(dot as int, chars@.len() as int),
                    forall|j: int| 0 <= j < k ==> ext[j] == want@[j],
                decreases want@.len() - k,
            {
                if chars[dot + k] != want[k] {
                    proof {
                        assert(ext[k as int] == chars@[dot + k]);
                    }
                    return false;
                }
                proof {
                    assert(ext[k as int] == chars@[dot + k]);
                }
                k += 1;
            }
            proof {
                assert(ext =~= want@);
            }
            true
        },
    }
}

/// Where a target is looked for before it is made canonical: an absolute
/// target where it says, a relative one below `current_dir`.
pub fn target_location(target: &str, current_dir: &str) -> (place: String)
    ensures
        place@ == located(target@, current_dir@),
{
    if path_is_absolute(target) {
        String::from_str(target)
    } else {
        path_join(current_dir, target)
    }
}

} // verus!
