//! UTF-8 validity: the store keeps values in a text column, so a `set` value
//! must be valid UTF-8; an invalid value is rejected with a failure outcome
//! instead of crashing the connection.

use vstd::prelude::*;

verus! {

/// A UTF-8 continuation byte.
pub open spec fn is_cont(b: u8) -> bool {
    0x80 <= b && b <= 0xBF
}

/// Whether `s` is a well-formed UTF-8 byte sequence: a sequence of 1- to
/// 4-byte encodings, shortest-form only, with surrogate code points and
/// anything above U+10FFFF excluded.
pub open spec fn is_utf8(s: Seq<u8>) -> bool
    decreases s.len(),
{
    if s.len() == 0 {
        true
    } else {
        let b0 = s[0];
        if b0 < 0x80 {
            is_utf8(s.skip(1))
        } else if 0xC2 <= b0 && b0 <= 0xDF {
            s.len() >= 2 && is_cont(s[1]) && is_utf8(s.skip(2))
        } else if b0 == 0xE0 {
            s.len() >= 3 && 0xA0 <= s[1] && s[1] <= 0xBF && is_cont(s[2]) && is_utf8(s.skip(3))
        } else if b0 == 0xED {
            s.len() >= 3 && 0x80 <= s[1] && s[1] <= 0x9F && is_cont(s[2]) && is_utf8(s.skip(3))
        } else if (0xE1 <= b0 && b0 <= 0xEC) || b0 == 0xEE || b0 == 0xEF {
            s.len() >= 3 && is_cont(s[1]) && is_cont(s[2]) && is_utf8(s.skip(3))
        } else if b0 == 0xF0 {
            s.len() >= 4 && 0x90 <= s[1] && s[1] <= 0xBF && is_cont(s[2]) && is_cont(s[3])
                && is_utf8(s.skip(4))
        } else if 0xF1 <= b0 && b0 <= 0xF3 {
            s.len() >= 4 && is_cont(s[1]) && is_cont(s[2]) && is_cont(s[3]) && is_utf8(s.skip(4))
        } else if b0 == 0xF4 {
            s.len() >= 4 && 0x80 <= s[1] && s[1] <= 0x8F && is_cont(s[2]) && is_cont(s[3])
                && is_utf8(s.skip(4))
        } else {
            false
        }
    }
}

/// Checks that the bytes form a well-formed UTF-8 sequence.
pub fn is_valid_utf8(v: &[u8]) -> (b: bool)
    ensures
        b == is_utf8(v@),
{
    let n: usize = v.len();
    let mut i: usize = 0;
    proof {
        assert(v@.skip(0) =~= v@);
    }
    loop
        invariant
            i <= n,
            n == v@.len(),
            is_utf8(v@) == is_utf8(v@.skip(i as int)),
        decreases n - i,
    {
        if i == n {
            proof {
                assert(v@.skip(i as int) =~= Seq::<u8>::empty());
            }
            return true;
        }
        proof {
            assert(v@.skip(i as int)[0] == v@[i as int]);
        }
        let b0 = v[i];
        if b0 < 0x80 {
            proof {
                assert(v@.skip(i as int).skip(1) =~= v@.skip(i as int + 1));
            }
            i = i + 1;
        } else if b0 < 0xC2 {
            return false;
        } else if b0 <= 0xDF {
            if n - i < 2 {
                return false;
            }
            proof {
                assert(v@.skip(i as int)[1] == v@[i as int + 1]);
            }
            let b1 = v[i + 1];
            if !(0x80 <= b1 && b1 <= 0xBF) {
                return false;
            }
            proof {
                assert(v@.skip(i as int).skip(2) =~= v@.skip(i as int + 2));
            }
            i = i + 2;
        } else if b0 <= 0xEF {
            if n - i < 3 {
                return false;
            }
            proof {
                assert(v@.skip(i as int)[1] == v@[i as int + 1]);
                assert(v@.skip(i as int)[2] == v@[i as int + 2]);
            }
            let b1 = v[i + 1];
            let b2 = v[i + 2];
            let lo: u8 = if b0 == 0xE0 {
                0xA0
            } else {
                0x80
            };
            let hi: u8 = if b0 == 0xED {
                0x9F
            } else {
                0xBF
            };
            if !(lo <= b1 && b1 <= hi) {
                return false;
            }
            if !(0x80 <= b2 && b2 <= 0xBF) {
                return false;
            }
            proof {
                assert(v@.skip(i as int).skip(3) =~= v@.skip(i as int + 3));
            }
            i = i + 3;
        } else if b0 <= 0xF4 {
            if n - i < 4 {
                return false;
            }
            proof {
                assert(v@.skip(i as int)[1] == v@[i as int + 1]);
                assert(v@.skip(i as int)[2] == v@[i as int + 2]);
                assert(v@.skip(i as int)[3] == v@[i as int + 3]);
            }
            let b1 = v[i + 1];
            let b2 = v[i + 2];
            let b3 = v[i + 3];
            let lo: u8 = if b0 == 0xF0 {
                0x90
            } else {
                0x80
            };
            let hi: u8 = if b0 == 0xF4 {
                0x8F
            } else {
                0xBF
            };
            if !(lo <= b1 && b1 <= hi) {
                return false;
            }
            if !(0x80 <= b2 && b2 <= 0xBF) {
                return false;
            }
            if !(0x80 <= b3 && b3 <= 0xBF) {
                return false;
            }
            proof {
                assert(v@.skip(i as int).skip(4) =~= v@.skip(i as int + 4));
            }
            i = i + 4;
        } else {
            return false;
        }
    }
}

} // verus!
