//! Backend addresses: which transport an address asks for, and the server
//! name that an encrypted connection presents for certificate checks.

use vstd::prelude::*;
use vstd::string::StrSliceExecFns;
use vstd::string::StringExecFns;

verus! {

/// The scheme marker that selects encrypted transport.
pub open spec fn https_marker() -> Seq<char> {
    seq!['h', 't', 't', 'p', 's', ':', '/', '/']
}

/// The address asks for encrypted transport.
pub open spec fn is_https(address: Seq<char>) -> bool {
    address.len() >= https_marker().len() && address.subrange(0, https_marker().len() as int)
        == https_marker()
}

/// The longest prefix of `s` that holds no `:`.
pub open spec fn host_part(s: Seq<char>) -> Seq<char>
    decreases s.len(),
{
    if s.len() == 0 || s[0] == ':' {
        Seq::empty()
    } else {
        seq![s[0]] + host_part(s.drop_first())
    }
}

/// The server name of an encrypted address: what stands between the scheme
/// marker and the first following colon, or the end.
pub open spec fn server_name_of(address: Seq<char>) -> Option<Seq<char>> {
    if is_https(address) {
        Some(host_part(address.subrange(https_marker().len() as int, address.len() as int)))
    } else {
        None
    }
}

proof fn lemma_host_part_prefix(s: Seq<char>, i: int)
    requires
        0 <= i <= s.len(),
        forall|j: int| 0 <= j < i ==> s[j] != ':',
        i == s.len() || s[i] == ':',
    ensures
        host_part(s) == s.subrange(0, i),
    decreases s.len(),
{
    if s.len() == 0 || s[0] == ':' {
        assert(i == 0);
    } else {
        lemma_host_part_prefix(s.drop_first(), i - 1);
        assert(seq![s[0]] + s.drop_first().subrange(0, i - 1) =~= s.subrange(0, i));
    }
}

/// Tells whether `address` starts with the encrypted-transport marker.
pub fn has_https_marker(address: &str) -> (r: bool)
    ensures
        r == is_https(address@),
{
    let marker: [char; 8] = ['h', 't', 't', 'p', 's', ':', '/', '/'];
    let n: usize = address.unicode_len();
    if n < 8 {
        return false;
    }
    let mut i: usize = 0;
    while i < 8
        invariant
            n == address@.len(),
            n >= 8,
            0 <= i <= 8,
            marker@ == https_marker(),
            forall|j: int| 0 <= j < i ==> address@[j] == https_marker()[j],
        decreases 8 - i,
    {
        if address.get_char(i) != marker[i] {
            assert(address@.subrange(0, 8)[i as int] != https_marker()[i as int]);
            return false;
        }
        i = i + 1;
    }
    assert(address@.subrange(0, 8) =~= https_marker());
    true
}

/// The server name to present when `address` asks for encrypted transport,
/// `None` when it asks for plaintext.
pub fn tls_server_name(address: &str) -> (r: Option<String>)
    ensures
        r is Some <==> is_https(address@),
        r is Some ==> server_name_of(address@) == Some(r->Some_0@),
{
    if !has_https_marker(address) {
        return None;
    }
    let n: usize = address.unicode_len();
    let rest = address.substring_char(8, n);
    let m: usize = rest.unicode_len();
    let mut i: usize = 0;
    while i < m && rest.get_char(i) != ':'
        invariant
            m == rest@.len(),
            0 <= i <= m,
            forall|j: int| 0 <= j < i ==> rest@[j] != ':',
        decreases m - i,
    {
        i = i + 1;
    }
    proof {
        lemma_host_part_prefix(rest@, i as int);
    }
    let host = rest.substring_char(0, i);
    Some(String::from_str(host))
}

} // verus!
