//! File names and paths as text: joining a directory and a name, and the
//! rule that gives a file name its default extension.

use vstd::prelude::*;
use vstd::string::StringExecFns;
use crate::text::chars_of;

verus! {

/// Where the last component of `path` starts: just past its last `/`.
pub open spec fn name_start(path: Seq<char>) -> int
    decreases path.len(),
{
    if path.len() == 0 {
        0
    } else if path.last() == '/' {
        path.len() as int
    } else {
        name_start(path.drop_last())
    }
}

/// `path` without what may follow its last component: slashes, and
/// components that are a single dot.
pub open spec fn trimmed(path: Seq<char>) -> Seq<char>
    decreases path.len(),
{
    if path.len() > 0 && path.last() == '/' {
        trimmed(path.drop_last())
    } else if path.len() >= 2 && path[path.len() - 1] == '.' && path[path.len() - 2] == '/' {
        trimmed(path.take(path.len() - 2))
    } else {
        path
    }
}

/// The last component of `path`: what stands between its last `/` and its
/// end, slashes and single dots at the end passed over.
pub open spec fn file_name(path: Seq<char>) -> Seq<char> {
    trimmed(path).skip(name_start(trimmed(path)))
}

/// Whether a file name holds a dot that is not its first character.
pub open spec fn has_inner_dot(name: Seq<char>) -> bool {
    exists|k: int| 0 < k < name.len() && name[k] == '.'
}

/// Whether the last component of `path` declares an extension: it holds a dot
/// after its first character and is not the parent directory `..`.
pub open spec fn has_extension(path: Seq<char>) -> bool {
    file_name(path) != seq!['.', '.'] && has_inner_dot(file_name(path))
}

/// Whether an extension can be appended to `path`: it ends in a file name,
/// which `.` and `..` are not, that declares none.
pub open spec fn lacks_extension(path: Seq<char>) -> bool {
    &&& file_name(path).len() > 0
    &&& file_name(path) != seq!['.']
    &&& file_name(path) != seq!['.', '.']
    &&& !has_inner_dot(file_name(path))
}

/// `path` with `extension` as its default: appended after a dot to the file
/// name where it declares none, so that what followed the file name is gone,
/// and left out where `path` declares its own or names no file.
pub open spec fn with_extension(path: Seq<char>, extension: Seq<char>) -> Seq<char> {
    if lacks_extension(path) && extension.len() > 0 {
        trimmed(path) + seq!['.'] + extension
    } else {
        path
    }
}

/// `name` inside `dir`. An absolute `name` stands for itself.
pub open spec fn joined(dir: Seq<char>, name: Seq<char>) -> Seq<char> {
    if name.len() > 0 && name[0] == '/' {
        name
    } else if dir.len() == 0 || dir.last() == '/' {
        dir + name
    } else {
        dir + seq!['/'] + name
    }
}

proof fn name_start_bounds(path: Seq<char>)
    ensures
        0 <= name_start(path) <= path.len(),
    decreases path.len(),
{
    if path.len() > 0 && path.last() != '/' {
        name_start_bounds(path.drop_last());
    }
}

/// What the scan of a path has seen after `i` characters.
struct Scan {
    start: usize,
    dot: bool,
}

spec fn scan_holds(path: Seq<char>, i: int, scan: Scan) -> bool {
    &&& scan.start == name_start(path.take(i))
    &&& scan.start <= i
    &&& scan.dot == has_inner_dot(path.take(i).skip(scan.start as int))
}

/// How many characters of `chars` stand before what is trimmed.
fn trimmed_len(chars: &Vec<char>) -> (n: usize)
    ensures
        n <= chars@.len(),
        chars@.take(n as int) == trimmed(chars@),
{
    let mut n: usize = chars.len();
    let mut going: bool = true;
    assert(chars@.take(n as int) =~= chars@);
    while going
        invariant
            n <= chars@.len(),
            trimmed(chars@) == trimmed(chars@.take(n as int)),
            !going ==> trimmed(chars@.take(n as int)) == chars@.take(n as int),
        decreases n + (if going { 1nat } else { 0nat }),
    {
        let ghost now = chars@.take(n as int);
        if n > 0 && chars[n - 1] == '/' {
            assert(now.drop_last() =~= chars@.take(n - 1));
            n -= 1;
        } else if n >= 2 && chars[n - 1] == '.' && chars[n - 2] == '/' {
            assert(now.take(now.len() - 2) =~= chars@.take(n - 2));
            n -= 2;
        } else {
            going = false;
        }
    }
    n
}

fn scan_path(chars: &Vec<char>, end: usize) -> (scan: Scan)
    requires
        end <= chars@.len(),
    ensures
        scan_holds(chars@.take(end as int), end as int, scan),
{
    let mut scan = Scan { start: 0, dot: false };
    let mut i: usize = 0;
    let ghost whole = chars@.take(end as int);
    assert(whole.take(0) =~= Seq::<char>::empty());
    while i < end
        invariant
            i <= end,
            end <= chars@.len(),
            whole == chars@.take(end as int),
            scan_holds(whole, i as int, scan),
        decreases end - i,
    {
        let c = chars[i];
        let ghost before = whole.take(i as int);
        let ghost after = whole.take(i + 1);
        assert(after.drop_last() =~= before);
        assert(after.last() == c);
        if c == '/' {
            scan = Scan { start: i + 1, dot: false };
            assert(after.skip(i + 1) =~= Seq::<char>::empty());
        } else {
            let ghost old_name = before.skip(scan.start as int);
            let ghost new_name = after.skip(scan.start as int);
            assert(new_name =~= old_name.push(c));
            let dot: bool = scan.dot || (c == '.' && i > scan.start);
            proof {
                if has_inner_dot(old_name) {
                    let k = choose|k: int| 0 < k < old_name.len() && old_name[k] == '.';
                    assert(new_name[k] == '.');
                }
                if c == '.' && i > scan.start {
                    assert(new_name[i - scan.start] == '.');
                }
                if has_inner_dot(new_name) {
                    let k = choose|k: int| 0 < k < new_name.len() && new_name[k] == '.';
                    if k < old_name.len() {
                        assert(old_name[k] == '.');
                    }
                }
            }
            scan = Scan { start: scan.start, dot };
        }
        i += 1;
    }
    assert(chars@.take(chars@.len() as int) =~= chars@);
    scan
}

/// Whether `path` declares an extension, whether it lacks one, and how many
/// of its characters stand before what is trimmed.
fn classify(path: &str) -> (r: (bool, bool, usize))
    ensures
        r.0 == has_extension(path@),
        r.1 == lacks_extension(path@),
        r.2 <= path@.len(),
        path@.take(r.2 as int) == trimmed(path@),
{
    let chars = chars_of(path);
    let end = trimmed_len(&chars);
    let scan = scan_path(&chars, end);
    let ghost kept = chars@.take(end as int);
    assert(kept.take(end as int) =~= kept);
    let parent: bool = end - scan.start == 2 && chars[scan.start] == '.' && chars[scan.start + 1]
        == '.';
    let current: bool = end - scan.start == 1 && chars[scan.start] == '.';
    proof {
        let name = file_name(path@);
        assert(name == kept.skip(scan.start as int));
        if parent {
            assert(name =~= seq!['.', '.']);
        } else if name == seq!['.', '.'] {
            assert(name.len() == 2);
            assert(name[0] == '.' && name[1] == '.');
        }
        if current {
            assert(name =~= seq!['.']);
        } else if name == seq!['.'] {
            assert(name.len() == 1);
            assert(name[0] == '.');
        }
    }
    (scan.dot && !parent, end > scan.start && !parent && !current && !scan.dot, end)
}

/// Whether `path` ends in a file name that declares an extension.
pub fn declares_extension(path: &str) -> (r: bool)
    ensures
        r == has_extension(path@),
{
    classify(path).0
}

/// Gives `path` the default `extension`: appended after a dot where `path`
/// ends in a file name without one, slashes after the file name dropped;
/// `path` unchanged where it declares its own, names no file, or
/// `extension` is empty.
pub fn apply_extension(path: &str, extension: &str) -> (r: String)
    ensures
        r@ == with_extension(path@, extension@),
{
    let class = classify(path);
    if class.1 && extension.unicode_len() > 0 {
        proof {
            reveal_strlit(".");
            assert("."@ =~= seq!['.']);
        }
        let mut r = path.substring_char(0, class.2).to_owned();
        assert(r@ =~= trimmed(path@));
        r.append(".");
        r.append(extension);
        r
    } else {
        path.to_owned()
    }
}

/// The path of `name` inside `dir`: the two joined by one `/`, `dir` alone
/// where it already ends in one, and `name` alone where it is absolute.
pub fn join_path(dir: &str, name: &str) -> (r: String)
    ensures
        r@ == joined(dir@, name@),
{
    let d = chars_of(dir);
    let f = chars_of(name);
    if f.len() > 0 && f[0] == '/' {
        return name.to_owned();
    }
    let mut r = dir.to_owned();
    if d.len() > 0 && d[d.len() - 1] != '/' {
        proof {
            reveal_strlit("/");
            assert("/"@ =~= seq!['/']);
        }
        r.append("/");
    }
    r.append(name);
    r
}

/// An extension is appended exactly to the file names that declare none, and
/// a declared extension is never overridden. Once an extension without a `/`
/// has been appended, the file name declares it, so that appending twice is
/// appending once.
pub proof fn extension_rule(path: Seq<char>, extension: Seq<char>)
    ensures
        has_extension(path) ==> with_extension(path, extension) == path,
        lacks_extension(path) && extension.len() > 0 ==> with_extension(path, extension)
            == trimmed(path) + seq!['.'] + extension,
        lacks_extension(path) && extension.len() > 0 && !extension.contains('/') ==> has_extension(
            with_extension(path, extension),
        ),
        !extension.contains('/') ==> with_extension(
            with_extension(path, extension),
            extension,
        ) == with_extension(path, extension),
{
    if lacks_extension(path) && extension.len() > 0 && !extension.contains('/') {
        assert forall|i: int| 0 <= i < (seq!['.'] + extension).len() implies (seq!['.']
            + extension)[i] != '/' by {
            if i > 0 {
                assert(extension.contains(extension[i - 1]));
            }
        }
        let kept = trimmed(path);
        let out = kept + seq!['.'] + extension;
        assert(extension.contains(extension.last()));
        assert(out.last() == extension.last());
        assert(out.len() >= 2);
        assert(out[out.len() - 2] != '/') by {
            if extension.len() >= 2 {
                assert(out[out.len() - 2] == extension[extension.len() - 2]);
                assert(extension.contains(extension[extension.len() - 2]));
            } else {
                assert(out[out.len() - 2] == '.');
            }
        }
        assert(trimmed(out) == out);
        name_start_bounds(kept);
        name_start_append(kept, seq!['.'] + extension);
        assert(out =~= kept + (seq!['.'] + extension));
        let name = file_name(path);
        let out_name = file_name(out);
        assert(out_name =~= name + seq!['.'] + extension);
        assert(out_name[name.len() as int] == '.');
        if out_name == seq!['.', '.'] {
            assert(out_name.len() == 2);
            assert(name.len() == 1 && extension.len() == 1);
            assert(out_name[0] == name[0]);
            assert(name =~= seq!['.']);
        }
        assert(has_extension(out));
    }
}

/// A path without a `/` is one file name.
proof fn name_without_slash(path: Seq<char>)
    requires
        !path.contains('/'),
    ensures
        name_start(path) == 0,
    decreases path.len(),
{
    if path.len() > 0 {
        assert(path.contains(path.last()));
        assert forall|i: int| 0 <= i < path.drop_last().len() implies path.drop_last()[i]
            != '/' by {
            assert(path.contains(path[i]));
        }
        assert(!path.drop_last().contains('/'));
        name_without_slash(path.drop_last());
    }
}

/// A name that is not empty and holds neither a dot nor a `/` gets the
/// extension: the name, a dot and the extension.
pub proof fn plain_name_gets_extension(name: Seq<char>, extension: Seq<char>)
    requires
        name.len() > 0,
        !name.contains('.'),
        !name.contains('/'),
        extension.len() > 0,
    ensures
        with_extension(name, extension) == name + seq!['.'] + extension,
{
    assert(name.contains(name.last()));
    if name.len() >= 2 {
        assert(name.contains(name[name.len() - 2]));
    }
    assert(trimmed(name) == name);
    name_without_slash(name);
    assert(file_name(name) =~= name);
    assert(name.contains(name[0]));
    if has_inner_dot(name) {
        let k = choose|k: int| 0 < k < name.len() && name[k] == '.';
        assert(name.contains(name[k]));
    }
    if name == seq!['.'] {
        assert(name[0] == '.');
    }
    if name == seq!['.', '.'] {
        assert(name[0] == '.');
    }
}

/// Appending text without a `/` leaves the start of the file name in place.
proof fn name_start_append(path: Seq<char>, tail: Seq<char>)
    requires
        forall|i: int| 0 <= i < tail.len() ==> tail[i] != '/',
    ensures
        name_start(path + tail) == name_start(path),
    decreases tail.len(),
{
    if tail.len() == 0 {
        assert(path + tail =~= path);
    } else {
        let whole = path + tail;
        assert(whole.last() == tail.last());
        assert(whole.drop_last() =~= path + tail.drop_last());
        name_start_append(path, tail.drop_last());
    }
}

} // verus!
