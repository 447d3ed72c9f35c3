//! How a listing is laid out in storage: the fields one after the other,
//! integers in little-endian order, after a header that the storage adds.

use vstd::prelude::*;
use vstd::bytes::{spec_u64_from_le_bytes, spec_u64_to_le_bytes, u64_from_le_bytes, u64_to_le_bytes};
use vstd::slice::slice_subrange;
use crate::identity::Identity;
use crate::listing::{Listing, ListingStatus};

verus! {

/// The size of the header that the storage puts before each record.
pub const HEADER_LEN: usize = 8;

/// The size of a listing's fields in storage.
pub const BODY_LEN: usize = 98;

/// The stored form of a listing's fields: seller, asset, price, quantity,
/// expiry, status, bump and nonce, in this order.
pub open spec fn encoding(listing: Listing) -> Seq<u8> {
    listing.seller@ + listing.mint@ + spec_u64_to_le_bytes(listing.price) + spec_u64_to_le_bytes(
        listing.quantity,
    ) + spec_u64_to_le_bytes(listing.expiry as u64) + seq![listing.status.code_of()]
        + seq![listing.bump] + spec_u64_to_le_bytes(listing.nonce)
}

/// Appends `part` to `out`.
fn append(out: &mut Vec<u8>, part: &Vec<u8>)
    ensures
        final(out)@ == old(out)@ + part@,
{
    let mut i: usize = 0;
    while i < part.len()
        invariant
            i <= part@.len(),
            out@ == old(out)@ + part@.subrange(0, i as int),
        decreases part@.len() - i,
    {
        out.push(part[i]);
        i += 1;
        proof {
            assert(out@ =~= old(out)@ + part@.subrange(0, i as int));
        }
    }
    proof {
        assert(part@.subrange(0, i as int) =~= part@);
    }
}

/// Writes a listing's fields in their stored form.
pub fn encode(listing: &Listing) -> (r: Vec<u8>)
    ensures
        r@ == encoding(*listing),
        r@.len() == BODY_LEN,
{
    proof {
        vstd::bytes::lemma_auto_spec_u64_to_from_le_bytes();
    }
    let mut out: Vec<u8> = listing.seller.to_vec();
    append(&mut out, &listing.mint.to_vec());
    append(&mut out, &u64_to_le_bytes(listing.price));
    append(&mut out, &u64_to_le_bytes(listing.quantity));
    append(&mut out, &u64_to_le_bytes(listing.expiry as u64));
    out.push(listing.status.code());
    proof {
        assert(out@ =~= listing.seller@ + listing.mint@ + spec_u64_to_le_bytes(listing.price)
            + spec_u64_to_le_bytes(listing.quantity) + spec_u64_to_le_bytes(listing.expiry as u64)
            + seq![listing.status.code_of()]);
    }
    out.push(listing.bump);
    proof {
        assert(out@ =~= listing.seller@ + listing.mint@ + spec_u64_to_le_bytes(listing.price)
            + spec_u64_to_le_bytes(listing.quantity) + spec_u64_to_le_bytes(listing.expiry as u64)
            + seq![listing.status.code_of()] + seq![listing.bump]);
    }
    append(&mut out, &u64_to_le_bytes(listing.nonce));
    out
}

/// Reads a listing back from its stored form. The bytes are a listing's
/// exactly when there are ninety-eight of them and the one for the status
/// names a status.
pub fn decode(bytes: &[u8]) -> (r: Option<Listing>)
    ensures
        r is Some <==> bytes@.len() == BODY_LEN && bytes@[88] <= 2,
        r matches Some(listing) ==> encoding(listing) == bytes@,
{
    if bytes.len() != BODY_LEN {
        return None;
    }
    let status = match ListingStatus::from_code(bytes[88]) {
        Some(s) => s,
        None => {
            return None;
        },
    };
    let seller = match Identity::from_slice(slice_subrange(bytes, 0, 32)) {
        Some(id) => id,
        None => {
            return None;
        },
    };
    let mint = match Identity::from_slice(slice_subrange(bytes, 32, 64)) {
        Some(id) => id,
        None => {
            return None;
        },
    };
    let price: u64 = u64_from_le_bytes(slice_subrange(bytes, 64, 72));
    let quantity: u64 = u64_from_le_bytes(slice_subrange(bytes, 72, 80));
    let expiry_bits: u64 = u64_from_le_bytes(slice_subrange(bytes, 80, 88));
    let nonce: u64 = u64_from_le_bytes(slice_subrange(bytes, 90, 98));
    let expiry: i64 = expiry_bits as i64;
    let listing = Listing {
        seller,
        mint,
        price,
        quantity,
        expiry,
        status,
        bump: bytes[89],
        nonce,
    };
    proof {
        vstd::bytes::lemma_auto_spec_u64_to_from_le_bytes();
        assert((expiry_bits as i64) as u64 == expiry_bits) by (bit_vector);
        assert(spec_u64_to_le_bytes(price) == bytes@.subrange(64, 72));
        assert(spec_u64_to_le_bytes(quantity) == bytes@.subrange(72, 80));
        assert(spec_u64_to_le_bytes(expiry as u64) == bytes@.subrange(80, 88));
        assert(spec_u64_to_le_bytes(nonce) == bytes@.subrange(90, 98));
        assert(encoding(listing) =~= bytes@);
    }
    Some(listing)
}

/// Two listings with the same stored form are the same listing: what is
/// read back from a listing's stored form is that listing.
pub proof fn lemma_encoding_is_faithful(a: Listing, b: Listing)
    requires
        encoding(a) == encoding(b),
    ensures
        a == b,
{
    vstd::bytes::lemma_auto_spec_u64_to_from_le_bytes();
    let ea = encoding(a);
    let eb = encoding(b);
    assert(ea.subrange(0, 32) =~= a.seller@);
    assert(eb.subrange(0, 32) =~= b.seller@);
    assert(ea.subrange(32, 64) =~= a.mint@);
    assert(eb.subrange(32, 64) =~= b.mint@);
    assert(ea.subrange(64, 72) =~= spec_u64_to_le_bytes(a.price));
    assert(eb.subrange(64, 72) =~= spec_u64_to_le_bytes(b.price));
    assert(ea.subrange(72, 80) =~= spec_u64_to_le_bytes(a.quantity));
    assert(eb.subrange(72, 80) =~= spec_u64_to_le_bytes(b.quantity));
    assert(ea.subrange(80, 88) =~= spec_u64_to_le_bytes(a.expiry as u64));
    assert(eb.subrange(80, 88) =~= spec_u64_to_le_bytes(b.expiry as u64));
    assert(ea[88] == a.status.code_of());
    assert(eb[88] == b.status.code_of());
    assert(ea[89] == a.bump);
    assert(eb[89] == b.bump);
    assert(ea.subrange(90, 98) =~= spec_u64_to_le_bytes(a.nonce));
    assert(eb.subrange(90, 98) =~= spec_u64_to_le_bytes(b.nonce));
    assert(a.seller.bytes =~= b.seller.bytes);
    assert(a.mint.bytes =~= b.mint.bytes);
    assert(a.price == spec_u64_from_le_bytes(spec_u64_to_le_bytes(a.price)));
    assert(b.price == spec_u64_from_le_bytes(spec_u64_to_le_bytes(b.price)));
    assert(a.quantity == spec_u64_from_le_bytes(spec_u64_to_le_bytes(a.quantity)));
    assert(b.quantity == spec_u64_from_le_bytes(spec_u64_to_le_bytes(b.quantity)));
    assert(a.nonce == spec_u64_from_le_bytes(spec_u64_to_le_bytes(a.nonce)));
    assert(b.nonce == spec_u64_from_le_bytes(spec_u64_to_le_bytes(b.nonce)));
    let xa = a.expiry as u64;
    let xb = b.expiry as u64;
    assert(xa == spec_u64_from_le_bytes(spec_u64_to_le_bytes(xa)));
    assert(xb == spec_u64_from_le_bytes(spec_u64_to_le_bytes(xb)));
    let ia = a.expiry;
    let ib = b.expiry;
    assert(ia as u64 == ib as u64 ==> ia == ib) by (bit_vector);
}

} // verus!
