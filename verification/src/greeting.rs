//! The raw greeting utility.
//!
//! A secondary boundary function reconstructs a caller-supplied buffer and
//! prints a greeting built from it. The printing happens at the boundary;
//! what is verified here is the message itself: exactly the bytes of
//! `"Hello, "`, then the name, then `"!"`.

use vstd::prelude::*;

verus! {

/// The bytes of `"Hello, "`.
pub open spec fn greeting_prefix() -> Seq<u8> {
    seq![0x48u8, 0x65u8, 0x6Cu8, 0x6Cu8, 0x6Fu8, 0x2Cu8, 0x20u8]
}

/// The bytes of `"!"`.
pub open spec fn greeting_suffix() -> Seq<u8> {
    seq![0x21u8]
}

/// The greeting message for `name`: `"Hello, "`, then `name`, then `"!"`.
pub open spec fn greeting_of(name: Seq<u8>) -> Seq<u8> {
    greeting_prefix() + name + greeting_suffix()
}

/// Builds the greeting message for `name`, exactly as `greeting_of` states
/// it. The caller at the boundary prints it followed by one newline.
pub fn make_greeting(name: &Vec<u8>) -> (r: Vec<u8>)
    ensures
        r@ == greeting_of(name@),
{
    let mut out: Vec<u8> = Vec::new();
    out.push(0x48);  // 'H'
    out.push(0x65);  // 'e'
    out.push(0x6C);  // 'l'
    out.push(0x6C);  // 'l'
    out.push(0x6F);  // 'o'
    out.push(0x2C);  // ','
    out.push(0x20);  // ' '
    proof {
        assert(out@ =~= greeting_prefix());
    }
    let mut i: usize = 0;
    while i < name.len()
        invariant
            i <= name@.len(),
            out@ == greeting_prefix() + name@.subrange(0, i as int),
        decreases name@.len() - i,
    {
        out.push(name[i]);
        i = i + 1;
        proof {
            assert(out@ =~= greeting_prefix() + name@.subrange(0, i as int));
        }
    }
    out.push(0x21);  // '!'
    proof {
        assert(name@.subrange(0, name@.len() as int) =~= name@);
        assert(out@ =~= greeting_of(name@));
    }
    out
}

} // verus!
