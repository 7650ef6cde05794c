//! Addresses of servers as users write them.

use crate::text::{decimal, push_decimal};
use crate::DEFAULT_PORT;
use vstd::prelude::*;
use vstd::string::{StrSliceExecFns, StringExecFns};

verus! {

/// The address to connect to for what a user wrote: `HOST:PORT` is taken as
/// it is, a bare `HOST` gets the default port.
pub open spec fn address_of(source: Seq<char>) -> Seq<char> {
    if source.contains(':') {
        source
    } else {
        source + ":"@ + decimal(DEFAULT_PORT as nat)
    }
}

/// Whether `source` names a port, that is, holds a colon.
pub fn names_port(source: &str) -> (named: bool)
    ensures
        named == source@.contains(':'),
{
    let len: usize = source.unicode_len();
    let mut i: usize = 0;
    while i < len
        invariant
            len == source@.len(),
            i <= len,
            forall|j: int| 0 <= j < i ==> source@[j] != ':',
        decreases len - i,
    {
        if source.get_char(i) == ':' {
            return true;
        }
        i = i + 1;
    }
    false
}

/// Completes what a user wrote to an address with a port.
pub fn with_default_port(source: &str) -> (address: String)
    ensures
        address@ == address_of(source@),
{
    let mut address = String::from_str(source);
    if !names_port(source) {
        address.append(":");
        push_decimal(&mut address, DEFAULT_PORT);
    }
    address
}

} // verus!
