//! Names of GPU entry points, as the driver wants them.

use vstd::prelude::*;
use vstd::string::*;

verus! {

/// The byte that ends a name handed to the driver.
pub const NUL: u8 = 0;

/// True when `name` can be handed to the driver: it holds no NUL byte.
pub open spec fn encodable(name: Seq<u8>) -> bool {
    forall|i: int| 0 <= i < name.len() ==> name[i] != NUL
}

/// Encodes the name of a GPU entry point for the driver: its bytes followed by one NUL.
/// A name that holds a NUL byte itself cannot be encoded; the entry point is then to be
/// treated as unavailable.
pub fn encode_symbol(name: &str) -> (encoded: Option<Vec<u8>>)
    ensures
        match encoded {
            Some(bytes) => encodable(name.spec_bytes()) && bytes@ == name.spec_bytes().push(NUL),
            None => !encodable(name.spec_bytes()),
        },
{
    let bytes = name.as_bytes();
    let mut encoded: Vec<u8> = Vec::new();
    let mut i: usize = 0;
    while i < bytes.len()
        invariant
            0 <= i <= bytes.len(),
            bytes@ == name.spec_bytes(),
            encoded@ == bytes@.take(i as int),
            encodable(bytes@.take(i as int)),
        decreases bytes.len() - i,
    {
        let b: u8 = bytes[i];
        if b == NUL {
            assert(!encodable(bytes@));
            return None;
        }
        encoded.push(b);
        proof {
            assert(bytes@.take(i + 1) =~= bytes@.take(i as int).push(b));
        }
        i = i + 1;
    }
    proof {
        assert(bytes@.take(bytes.len() as int) =~= bytes@);
    }
    encoded.push(NUL);
    Some(encoded)
}

} // verus!
