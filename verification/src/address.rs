use std::str::FromStr;
use vstd::prelude::*;
use vstd::string::StringExecFns;
use crate::failure::{ErrorKind, Failure};
use crate::path::is_separator;
use crate::probe::{settle, settles};
use crate::text::chars_of;

verus! {

/// Whether a text starts with two backslashes or with two slashes.
pub open spec fn has_unc_prefix(text: Seq<char>) -> bool {
    &&& text.len() >= 2
    &&& (text[0] == '\\' && text[1] == '\\') || (text[0] == '/' && text[1] == '/')
}

/// Where the first separator stands in a text; the text's length if it
/// holds none.
pub open spec fn first_separator(s: Seq<char>) -> int
    decreases s.len(),
{
    if s.len() == 0 {
        0
    } else if is_separator(s[0]) {
        0
    } else {
        1 + first_separator(s.drop_first())
    }
}

/// A text with each slash turned into a backslash.
pub open spec fn backslashed(s: Seq<char>) -> Seq<char> {
    Seq::new(
        s.len(),
        |i: int|
            if s[i] == '/' {
                '\\'
            } else {
                s[i]
            },
    )
}

/// The parts of a share address.
pub struct Address {
    pub server: Seq<char>,
    pub share: Option<Seq<char>>,
    pub path: Option<Seq<char>>,
}

/// The parts that an address of the form `\\server\share\path` is made of.
///
/// After the two leading separators, the server runs up to the first
/// separator and the share up to the second; the path is all that follows,
/// its slashes turned into backslashes. A part is absent where the
/// separator before it is.
pub open spec fn address_parts(text: Seq<char>) -> Option<Address> {
    if !has_unc_prefix(text) {
        None
    } else {
        let rest = text.skip(2);
        let a = first_separator(rest);
        if a == rest.len() {
            Some(Address { server: rest, share: None, path: None })
        } else {
            let tail = rest.skip(a + 1);
            let b = first_separator(tail);
            if b == tail.len() {
                Some(Address { server: rest.take(a), share: Some(tail), path: None })
            } else {
                Some(
                    Address {
                        server: rest.take(a),
                        share: Some(tail.take(b)),
                        path: Some(backslashed(tail.skip(b + 1))),
                    },
                )
            }
        }
    }
}

/// An address as text: two backslashes and the server, then a backslash
/// and the share, then a backslash and the path, as far as they are there.
pub open spec fn address_text(address: Address) -> Seq<char> {
    seq!['\\', '\\'] + address.server + match address.share {
        Some(share) => seq!['\\'] + share,
        None => Seq::<char>::empty(),
    } + match address.path {
        Some(path) => seq!['\\'] + path,
        None => Seq::<char>::empty(),
    }
}

/// The first separator of a text is a separator, and nothing before it is.
pub proof fn lemma_first_separator(s: Seq<char>)
    ensures
        0 <= first_separator(s) <= s.len(),
        forall|i: int| 0 <= i < first_separator(s) ==> !is_separator(#[trigger] s[i]),
        first_separator(s) < s.len() ==> is_separator(s[first_separator(s)]),
    decreases s.len(),
{
    if s.len() > 0 && !is_separator(s[0]) {
        lemma_first_separator(s.drop_first());
        assert forall|i: int| 0 <= i < first_separator(s) implies !is_separator(
            #[trigger] s[i],
        ) by {
            if i > 0 {
                assert(s[i] == s.drop_first()[i - 1]);
            }
        }
    }
}

/// An address that is parsed and written out again is the address with
/// backslashes for separators.
pub proof fn law_address_text(text: Seq<char>)
    requires
        has_unc_prefix(text),
    ensures
        address_parts(text) matches Some(parts) && address_text(parts) == seq!['\\', '\\']
            + backslashed(text.skip(2)),
{
    let rest = text.skip(2);
    let a = first_separator(rest);
    lemma_first_separator(rest);
    let parts = address_parts(text)->0;
    if a == rest.len() {
        assert(address_text(parts) =~= seq!['\\', '\\'] + backslashed(rest));
    } else {
        let tail = rest.skip(a + 1);
        let b = first_separator(tail);
        lemma_first_separator(tail);
        assert forall|i: int| 0 <= i < b implies !is_separator(#[trigger] rest[a + 1 + i]) by {
            assert(rest[a + 1 + i] == tail[i]);
        }
        if b == tail.len() {
            assert(address_text(parts) =~= seq!['\\', '\\'] + backslashed(rest));
        } else {
            assert(is_separator(rest[a + 1 + b])) by {
                assert(rest[a + 1 + b] == tail[b]);
            }
            assert(address_text(parts) =~= seq!['\\', '\\'] + backslashed(rest));
        }
    }
}

/// The root of a share: the address that every remote path starts with.
#[derive(Clone, Debug)]
pub struct ShareRoot {
    server: String,
    share: Option<String>,
    path: Option<String>,
}

impl ShareRoot {
    /// The parts of the root.
    pub closed spec fn parts(&self) -> Address {
        Address {
            server: self.server@,
            share: match self.share {
                Some(s) => Some(s@),
                None => None,
            },
            path: match self.path {
                Some(p) => Some(p@),
                None => None,
            },
        }
    }

    /// The root as text.
    pub open spec fn text(&self) -> Seq<char> {
        address_text(self.parts())
    }

    /// The root as text: `\\server\share`, and the path below it if the
    /// address had one.
    pub fn to_text(&self) -> (out: String)
        ensures
            out@ == self.text(),
    {
        let mut out = String::new();
        out.push('\\');
        out.push('\\');
        out.append(self.server.as_str());
        assert(out@ =~= seq!['\\', '\\'] + self.server@);
        let ghost head = out@;
        match &self.share {
            Some(share) => {
                out.push('\\');
                out.append(share.as_str());
                assert(out@ =~= head + (seq!['\\'] + share@));
            },
            None => {
                assert(out@ =~= head + Seq::<char>::empty());
            },
        }
        let ghost middle = out@;
        match &self.path {
            Some(path) => {
                out.push('\\');
                out.append(path.as_str());
                assert(out@ =~= middle + (seq!['\\'] + path@));
            },
            None => {
                assert(out@ =~= middle + Seq::<char>::empty());
            },
        }
        out
    }

    /// The root's characters.
    pub fn to_chars(&self) -> (out: Vec<char>)
        ensures
            out@ == self.text(),
    {
        let text = self.to_text();
        chars_of(text.as_str())
    }
}

/// Parses a share address with `smb::UncPath::from_str` and hands out what
/// the parsed value holds, as its `server`, `share` and `path` give it.
///
/// The parser refuses a text that starts neither with `\\` nor with `//`.
/// Else it cuts the text behind these two characters at its first two
/// separators, into at most three parts, and turns the slashes of the
/// last part into backslashes.
#[verifier::external_body]
fn parse_address(text: &str) -> (root: Option<ShareRoot>)
    ensures
        match root {
            Some(r) => address_parts(text@) == Some(r.parts()),
            None => address_parts(text@) is None,
        },
{
    match smb::UncPath::from_str(text) {
        Ok(unc) => Some(
            ShareRoot {
                server: unc.server().to_string(),
                share: unc.share().map(str::to_string),
                path: unc.path().map(str::to_string),
            },
        ),
        Err(_) => None,
    }
}

/// Starts the connecting: reads the address of the share.
///
/// An address that does not start with `\\` or `//` is refused as
/// `BadAddress`. Else the root of the share is the address, with
/// backslashes for separators.
pub fn connect(address: &str) -> (r: Result<ShareRoot, Failure>)
    ensures
        match r {
            Ok(root) => {
                &&& has_unc_prefix(address@)
                &&& address_parts(address@) == Some(root.parts())
                &&& root.text() == seq!['\\', '\\'] + backslashed(address@.skip(2))
            },
            Err(f) => !has_unc_prefix(address@) && f.is_bare(ErrorKind::BadAddress),
        },
{
    match parse_address(address) {
        Some(root) => {
            proof {
                law_address_text(address@);
            }
            Ok(root)
        },
        None => Err(Failure::bare(ErrorKind::BadAddress)),
    }
}

/// Ends the connecting: success if the session was set up, else a
/// `ConnectError` with the session's text.
pub fn connect_done(reply: Result<(), String>) -> (r: Result<(), Failure>)
    ensures
        settles(reply, ErrorKind::ConnectError, r),
{
    settle(reply, ErrorKind::ConnectError)
}

} // verus!
