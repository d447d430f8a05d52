use vstd::prelude::*;

use crate::color::{color_byte_spec, ColorCode, BLUE_BYTE, GREEN_BYTE, PURPLE_BYTE, RED_BYTE};

verus! {

/// ASCII `0`, the base of the digit bytes.
pub const DIGIT_ZERO: u8 = 48;

/// Whether `b` is an ASCII decimal digit.
pub open spec fn is_digit_byte(b: u8) -> bool {
    DIGIT_ZERO <= b <= DIGIT_ZERO + 9
}

/// Whether `b` is one of the four color bytes.
pub open spec fn is_color_byte(b: u8) -> bool {
    b == PURPLE_BYTE || b == RED_BYTE || b == BLUE_BYTE || b == GREEN_BYTE
}

/// The decimal ASCII representation of `n`: no sign, no padding and no
/// leading zero except for `n == 0` itself.
pub open spec fn dec_rep(n: nat) -> Seq<u8>
    decreases n,
{
    if n < 10 {
        seq![(DIGIT_ZERO + n) as u8]
    } else {
        dec_rep(n / 10).push((DIGIT_ZERO + n % 10) as u8)
    }
}

/// Value of a string of ASCII digit bytes, most significant first.
pub open spec fn digits_val(s: Seq<u8>) -> nat
    decreases s.len(),
{
    if s.len() == 0 {
        0
    } else {
        (digits_val(s.drop_last()) * 10 + (s.last() - DIGIT_ZERO)) as nat
    }
}

/// The framed message for one assignment: the decimal digits of the LED
/// index followed by exactly one color byte. No terminator, no separator.
pub open spec fn frame_spec(led: u16, color: ColorCode) -> Seq<u8> {
    dec_rep(led as nat).push(color_byte_spec(color))
}

/// Whether `s` is a well-formed frame under the grammar: one or more
/// digit bytes followed by exactly one color byte.
pub open spec fn wellformed_frame(s: Seq<u8>) -> bool {
    &&& s.len() >= 2
    &&& is_color_byte(s.last())
    &&& forall|i: int| 0 <= i < s.len() - 1 ==> is_digit_byte(s[i])
}

/// The color a wire byte names; meaningful only for the four color bytes.
pub open spec fn color_of_byte(b: u8) -> ColorCode {
    if b == PURPLE_BYTE {
        ColorCode::Purple
    } else if b == RED_BYTE {
        ColorCode::Red
    } else if b == BLUE_BYTE {
        ColorCode::Blue
    } else {
        ColorCode::Green
    }
}

/// The microcontroller's inverse parse of one frame: the value of the
/// digits and the color of the final byte, for well-formed frames only.
pub open spec fn decode_frame(s: Seq<u8>) -> Option<(nat, ColorCode)> {
    if wellformed_frame(s) {
        Some((digits_val(s.drop_last()), color_of_byte(s.last())))
    } else {
        None::<(nat, ColorCode)>
    }
}

/// Every byte of a decimal representation is a digit byte.
pub proof fn lemma_dec_rep_digits(n: nat)
    ensures
        dec_rep(n).len() >= 1,
        forall|i: int| 0 <= i < dec_rep(n).len() ==> is_digit_byte(dec_rep(n)[i]),
    decreases n,
{
    if n >= 10 {
        lemma_dec_rep_digits(n / 10);
        assert forall|i: int| 0 <= i < dec_rep(n).len() implies is_digit_byte(dec_rep(n)[i]) by {
            if i < dec_rep(n).len() - 1 {
                assert(dec_rep(n)[i] == dec_rep(n / 10)[i]);
            }
        }
    }
}

/// Reading the decimal representation back gives the number itself.
pub proof fn lemma_dec_rep_val(n: nat)
    ensures
        digits_val(dec_rep(n)) == n,
    decreases n,
{
    if n < 10 {
        assert(digits_val(Seq::<u8>::empty()) == 0);
        assert(dec_rep(n).drop_last() =~= Seq::<u8>::empty());
    } else {
        lemma_dec_rep_val(n / 10);
        let d = (DIGIT_ZERO + n % 10) as u8;
        assert(dec_rep(n) == dec_rep(n / 10).push(d));
        assert(dec_rep(n).drop_last() =~= dec_rep(n / 10));
        assert(dec_rep(n).last() == d);
        assert(n / 10 * 10 + n % 10 == n) by {
            vstd::arithmetic::div_mod::lemma_fundamental_div_mod(n as int, 10);
        }
    }
}

/// Round trip: a frame decodes back to exactly the LED index and color it
/// was built from, so the concatenation is uniquely decodable under the
/// grammar.
pub proof fn lemma_frame_round_trip(led: u16, color: ColorCode)
    ensures
        wellformed_frame(frame_spec(led, color)),
        decode_frame(frame_spec(led, color)) == Some((led as nat, color)),
{
    let s = frame_spec(led, color);
    lemma_dec_rep_digits(led as nat);
    lemma_dec_rep_val(led as nat);
    assert(s.drop_last() =~= dec_rep(led as nat));
    assert(s.last() == color_byte_spec(color));
}

/// The encoding is injective: two assignments with the same frame are the
/// same assignment.
pub proof fn lemma_frame_injective(led1: u16, color1: ColorCode, led2: u16, color2: ColorCode)
    requires
        frame_spec(led1, color1) == frame_spec(led2, color2),
    ensures
        led1 == led2,
        color1 == color2,
{
    lemma_frame_round_trip(led1, color1);
    lemma_frame_round_trip(led2, color2);
}

/// Builds the framed message for one assignment: the decimal digits of
/// `led` in ASCII, most significant first, followed by the color byte.
pub fn encode_assignment(led: u16, color: ColorCode) -> (r: Vec<u8>)
    ensures
        r@ == frame_spec(led, color),
        decode_frame(r@) == Some((led as nat, color)),
{
    proof {
        lemma_frame_round_trip(led, color);
    }
    let mut rev: Vec<u8> = Vec::new();
    let mut n: u16 = led;
    while n >= 10
        invariant
            dec_rep(led as nat) =~= dec_rep(n as nat) + rev@.reverse(),
        decreases n,
    {
        let d: u8 = DIGIT_ZERO + (n % 10) as u8;
        proof {
            let old_rev = rev@;
            assert(dec_rep(n as nat) == dec_rep((n / 10) as nat).push(d));
            assert(old_rev.push(d).reverse() =~= seq![d] + old_rev.reverse());
            assert(dec_rep((n / 10) as nat).push(d) + old_rev.reverse() =~= dec_rep(
                (n / 10) as nat,
            ) + (seq![d] + old_rev.reverse()));
        }
        rev.push(d);
        n = n / 10;
    }
    let mut out: Vec<u8> = Vec::new();
    out.push(DIGIT_ZERO + n as u8);
    proof {
        assert(dec_rep(n as nat) =~= seq![(DIGIT_ZERO + n as nat) as u8]);
        assert(out@ =~= dec_rep(n as nat));
    }
    let mut i: usize = rev.len();
    while i > 0
        invariant
            i <= rev@.len(),
            out@ =~= dec_rep(n as nat) + rev@.reverse().take(rev@.len() - i),
        decreases i,
    {
        i = i - 1;
        let b = rev[i];
        proof {
            let k = rev@.len() - i - 1;
            assert(rev@.reverse()[k] == rev@[i as int]);
            assert(rev@.reverse().take(k + 1) =~= rev@.reverse().take(k).push(rev@[i as int]));
        }
        out.push(b);
    }
    proof {
        assert(rev@.reverse().take(rev@.len() as int) =~= rev@.reverse());
        assert(out@ =~= dec_rep(led as nat));
    }
    let cb = color.byte();
    out.push(cb);
    out
}

} // verus!
