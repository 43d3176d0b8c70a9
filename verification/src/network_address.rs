//! Network addresses: a chain and an account on it, written `chain/account`.

use vstd::prelude::*;
use vstd::string::StrSliceExecFns;

verus! {

/// The one slash of `address` stands at `at`.
pub open spec fn only_slash_at(address: Seq<char>, at: int) -> bool {
    &&& 0 <= at < address.len()
    &&& address[at] == '/'
    &&& forall|j: int| 0 <= j < address.len() && j != at ==> address[j] != '/'
}

/// The account of a network address: what follows its one slash. An address
/// with no slash, or with more than one, has no account.
pub open spec fn account_of(address: Seq<char>) -> Option<Seq<char>> {
    if exists|at: int| only_slash_at(address, at) {
        let at = choose|at: int| only_slash_at(address, at);
        Some(address.skip(at + 1))
    } else {
        None
    }
}

/// Takes the account out of a network address.
pub fn account_part(address: &str) -> (r: Option<String>)
    ensures
        crate::views::view_opt(r) == account_of(address@),
{
    let len = address.unicode_len();
    let mut slash: Option<usize> = None;
    let mut i: usize = 0;
    while i < len
        invariant
            i <= len,
            len == address@.len(),
            match slash {
                None => forall|j: int| 0 <= j < i ==> address@[j] != '/',
                Some(at) => at < i && address@[at as int] == '/' && forall|j: int|
                    0 <= j < i && j != at ==> address@[j] != '/',
            },
        decreases len - i,
    {
        if address.get_char(i) == '/' {
            match slash {
                Some(at) => {
                    assert forall|k: int| !only_slash_at(address@, k) by {
                        if only_slash_at(address@, k) {
                            if k == at as int {
                                assert(address@[i as int] != '/');
                            } else {
                                assert(address@[at as int] != '/');
                            }
                        }
                    }
                    return None;
                },
                None => {
                    slash = Some(i);
                },
            }
        }
        i += 1;
    }
    match slash {
        None => None,
        Some(at) => {
            assert(only_slash_at(address@, at as int));
            assert forall|k: int| only_slash_at(address@, k) implies k == at as int by {
                if k != at as int {
                    assert(address@[at as int] != '/');
                }
            }
            let account = address.substring_char(at + 1, len);
            assert(account@ =~= address@.skip(at as int + 1));
            Some(account.to_owned())
        },
    }
}

} // verus!
