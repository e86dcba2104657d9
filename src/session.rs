//! The shared SSH session: one control socket per host, referenced by every
//! transport command of a run.
use vstd::prelude::*;
use vstd::string::*;
use crate::text::{concat2, owned, push_char};

verus! {

/// What `char::is_alphanumeric` returns for a character.
pub uninterp spec fn alnum_of(c: char) -> bool;

/// Relies on `char::is_alphanumeric`: alphabetic or numeric in Unicode's sense,
/// which for ASCII is exactly the letters and digits.
#[verifier::external_body]
fn is_alphanumeric(c: char) -> (r: bool)
    ensures
        r == alnum_of(c),
        (c as u32) < 128 ==> (r <==> ascii_alnum(c)),
{
    c.is_alphanumeric()
}

/// A character as it stands in a socket file name: letters, digits, `-` and
/// `.` are kept, anything else becomes `_`.
pub open spec fn safe_char(c: char) -> char {
    if alnum_of(c) || c == '-' || c == '.' {
        c
    } else {
        '_'
    }
}

/// A host name made safe for a file name.
pub open spec fn sanitized(host: Seq<char>) -> Seq<char> {
    host.map_values(|c: char| safe_char(c))
}

/// `name` under directory `dir`, with one separator between them.
pub open spec fn joined_path(dir: Seq<char>, name: Seq<char>) -> Seq<char> {
    if dir.len() == 0 || dir.last() == '/' {
        dir + name
    } else {
        dir + seq!['/'] + name
    }
}

/// The control socket of `host` under the socket directory `dir`.
pub open spec fn control_path_of(dir: Seq<char>, host: Seq<char>) -> Seq<char> {
    joined_path(dir, "control_"@ + sanitized(host))
}

/// The ssh option that names the control socket `path`.
pub open spec fn control_option(path: Seq<char>) -> Seq<char> {
    "ControlPath="@ + path
}

/// The remote shell that rsync runs to reach the host through socket `path`.
pub open spec fn rsync_shell(path: Seq<char>) -> Seq<char> {
    "ssh -o "@ + control_option(path)
}

/// Whether an ASCII character is a letter or a digit.
pub open spec fn ascii_alnum(c: char) -> bool {
    ('a' <= c && c <= 'z') || ('A' <= c && c <= 'Z') || ('0' <= c && c <= '9')
}

/// `out` has one character per character of `host`, and each ASCII character
/// of `host` is kept in it when it is a letter, a digit, `-` or `.`, and
/// stands as `_` otherwise: no `/`, `@`, `:` or space survives.
pub open spec fn ascii_file_safe(host: Seq<char>, out: Seq<char>) -> bool {
    &&& out.len() == host.len()
    &&& forall|i: int|
        0 <= i < host.len() && (host[i] as u32) < 128 ==> #[trigger] out[i] == if ascii_alnum(
            host[i],
        ) || host[i] == '-' || host[i] == '.' {
            host[i]
        } else {
            '_'
        }
}

/// Replaces every character of `host` that a file name should not hold.
pub fn sanitize_host(host: &str) -> (r: String)
    ensures
        r@ == sanitized(host@),
        ascii_file_safe(host@, r@),
{
    let n = host.unicode_len();
    let mut r = String::new();
    let mut i: usize = 0;
    while i < n
        invariant
            n == host@.len(),
            i <= n,
            r@ == sanitized(host@.subrange(0, i as int)),
            forall|k: int|
                0 <= k < i && (host@[k] as u32) < 128 ==> (#[trigger] alnum_of(host@[k])
                    <==> ascii_alnum(host@[k])),
        decreases n - i,
    {
        let c = host.get_char(i);
        let keep = is_alphanumeric(c) || c == '-' || c == '.';
        if keep {
            push_char(&mut r, c);
        } else {
            push_char(&mut r, '_');
        }
        assert(sanitized(host@.subrange(0, i as int + 1)) =~= sanitized(
            host@.subrange(0, i as int),
        ).push(safe_char(c)));
        i = i + 1;
    }
    assert(host@.subrange(0, n as int) =~= host@);
    assert forall|i: int| 0 <= i < host@.len() && (host@[i] as u32) < 128 implies #[trigger] r@[i]
        == if ascii_alnum(host@[i]) || host@[i] == '-' || host@[i] == '.' {
        host@[i]
    } else {
        '_'
    } by {
        assert(alnum_of(host@[i]) <==> ascii_alnum(host@[i]));
    }
    r
}

/// Joins a directory and a file name with exactly one separator.
pub fn join_path(dir: &str, name: &str) -> (r: String)
    ensures
        r@ == joined_path(dir@, name@),
{
    let n = dir.unicode_len();
    if n == 0 || dir.get_char(n - 1) == '/' {
        concat2(dir, name)
    } else {
        let mut r = owned(dir);
        push_char(&mut r, '/');
        r.append(name);
        r
    }
}

/// The control socket path for `host` under the socket directory `control_dir`.
pub fn ssh_control_path(control_dir: &str, host: &str) -> (r: String)
    ensures
        r@ == control_path_of(control_dir@, host@),
        ascii_file_safe(host@, sanitized(host@)),
{
    let safe = sanitize_host(host);
    proof {
        reveal_strlit("control_");
    }
    let name = concat2("control_", safe.as_str());
    join_path(control_dir, name.as_str())
}

/// The capability that every transport command of a run goes through: the
/// host and the one control socket that multiplexes its authenticated session.
pub struct Session {
    host: String,
    control_path: String,
}

impl Session {
    /// The session of `host` whose socket lives under `control_dir`.
    pub fn new(control_dir: &str, host: &str) -> (r: Session)
        ensures
            r.host_view() == host@,
            r.path_view() == control_path_of(control_dir@, host@),
    {
        Session { host: owned(host), control_path: ssh_control_path(control_dir, host) }
    }

    /// The host, as characters.
    pub closed spec fn host_view(&self) -> Seq<char> {
        self.host@
    }

    /// The control socket path, as characters.
    pub closed spec fn path_view(&self) -> Seq<char> {
        self.control_path@
    }

    /// The host this session reaches.
    pub fn host(&self) -> (r: &str)
        ensures
            r@ == self.host_view(),
    {
        self.host.as_str()
    }

    /// The control socket of this session.
    pub fn control_path(&self) -> (r: &str)
        ensures
            r@ == self.path_view(),
    {
        self.control_path.as_str()
    }
}

/// The `ssh` invocation that rsync uses as its remote shell, bound to the
/// session's control socket.
pub fn ssh_control_path_arg(session: &Session) -> (r: String)
    ensures
        r@ == rsync_shell(session.path_view()),
{
    proof {
        reveal_strlit("ssh -o ControlPath=");
        reveal_strlit("ssh -o ");
        reveal_strlit("ControlPath=");
    }
    let r = concat2("ssh -o ControlPath=", session.control_path.as_str());
    assert(r@ =~= rsync_shell(session.control_path@));
    r
}

} // verus!
