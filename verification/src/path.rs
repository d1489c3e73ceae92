//! Path-format conversion between the host's drive-letter namespace and the
//! guest namespace, and relative-path stripping against a project root.

use vstd::prelude::*;

use crate::text::{occurs_at, occurs_at_exec, push_char};

verus! {

/// Every backslash replaced by a forward slash; all other characters kept.
pub open spec fn slashify(s: Seq<char>) -> Seq<char> {
    Seq::new(s.len(), |i: int| if s[i] == '\\' { '/' } else { s[i] })
}

/// A drive-letter-absolute path once slash-normalized: `<drive>:/...`.
pub open spec fn is_drive_absolute(t: Seq<char>) -> bool {
    t.len() >= 3 && t[1] == ':' && t[2] == '/'
}

/// An upper-case ASCII letter mapped to lower case; anything else kept.
pub open spec fn lower_ascii(c: char) -> char {
    if 'A' <= c && c <= 'Z' {
        ((c as u32) + 32) as char
    } else {
        c
    }
}

/// The guest form of a host path: slash-normalized, and, when the normalized
/// path is drive-letter absolute, rooted under `/mnt/<lower-case drive>/`.
pub open spec fn wsl_path(s: Seq<char>) -> Seq<char> {
    let t = slashify(s);
    if is_drive_absolute(t) {
        seq!['/', 'm', 'n', 't', '/', lower_ascii(t[0]), '/'] + t.skip(3)
    } else {
        t
    }
}

/// Converts a host-style path to its guest form: backslashes become slashes,
/// and an absolute path `D:\a\b` becomes `/mnt/d/a/b`; a non-absolute path
/// passes through with only the slash normalization.
pub fn window_path_to_wsl(path: &str) -> (r: String)
    ensures
        r@ == wsl_path(path@),
{
    let n = path.unicode_len();
    let mut t = String::new();
    let mut i: usize = 0;
    while i < n
        invariant
            n == path@.len(),
            i <= n,
            t@ =~= slashify(path@).take(i as int),
        decreases n - i,
    {
        let c = path.get_char(i);
        if c == '\\' {
            push_char(&mut t, '/');
        } else {
            push_char(&mut t, c);
        }
        i += 1;
        assert(t@ =~= slashify(path@).take(i as int));
    }
    assert(t@ =~= slashify(path@));
    if n >= 3 {
        let c1 = t.as_str().get_char(1);
        let c2 = t.as_str().get_char(2);
        if c1 == ':' && c2 == '/' {
            let c0 = t.as_str().get_char(0);
            let drive: char = if 'A' <= c0 && c0 <= 'Z' {
                (((c0 as u32) + 32) as u8) as char
            } else {
                c0
            };
            assert(drive == lower_ascii(c0));
            let mut r = String::new();
            push_char(&mut r, '/');
            push_char(&mut r, 'm');
            push_char(&mut r, 'n');
            push_char(&mut r, 't');
            push_char(&mut r, '/');
            push_char(&mut r, drive);
            push_char(&mut r, '/');
            let rest = t.as_str().substring_char(3, n);
            r.append(rest);
            assert(r@ =~= wsl_path(path@));
            return r;
        }
    }
    t
}

/// `file` with a leading `project` prefix and the separator after it removed;
/// `file` unchanged when it does not extend `project`.
pub open spec fn strip_project(file: Seq<char>, project: Seq<char>) -> Seq<char> {
    if file.len() > project.len() && file.subrange(0, project.len() as int) == project {
        file.skip(project.len() as int + 1)
    } else {
        file
    }
}

/// Strips the project-root prefix and the path separator after it from a file
/// path, so that the emitted path is relative to the project; a path that does
/// not extend the project root is returned unchanged.
pub fn relative_to_project(file: &str, project: &str) -> (r: String)
    ensures
        r@ == strip_project(file@, project@),
{
    let file_len = file.unicode_len();
    let project_len = project.unicode_len();
    if file_len > project_len && occurs_at_exec(file, project, 0, file_len, project_len) {
        assert(occurs_at(file@, project@, 0));
        assert(file@.subrange(0, project@.len() as int) == project@);
        let rest = file.substring_char(project_len + 1, file_len);
        assert(rest@ =~= file@.skip(project@.len() as int + 1));
        let mut r = String::new();
        r.append(rest);
        r
    } else {
        assert(!(file@.len() > project@.len() && file@.subrange(0, project@.len() as int)
            == project@)) by {
            if file@.len() > project@.len() && file@.subrange(0, project@.len() as int)
                == project@ {
                assert(occurs_at(file@, project@, 0));
            }
        }
        let mut r = String::new();
        r.append(file);
        r
    }
}

} // verus!
