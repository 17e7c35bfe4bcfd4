//! The links that the index page offers: sign in and sign out at the
//! authentication service.

use vstd::prelude::*;
use vstd::string::StrSliceExecFns;
use vstd::string::StringExecFns;

verus! {

/// The sign-in and sign-out links of the index page.
pub struct IndexLinks {
    pub login_link: String,
    pub logout_link: String,
}

/// The links for the authentication service at `auth_address`; `None` when no
/// address is configured, in which case the page reports an internal error.
pub fn index_links(auth_address: &str) -> (r: Option<IndexLinks>)
    ensures
        r is None <==> auth_address@.len() == 0,
        r matches Some(links) ==> links.login_link@ == auth_address@ && links.logout_link@
            == auth_address@ + "/logout"@,
{
    if auth_address.unicode_len() == 0 {
        return None;
    }
    let login_link = String::from_str(auth_address);
    let logout_link = String::from_str(auth_address).concat("/logout");
    Some(IndexLinks { login_link, logout_link })
}

} // verus!
