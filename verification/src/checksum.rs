//! The descriptor checksum: a BCH-style code over a 40-bit state, fed 5 bits
//! at a time, rendered as 8 characters of a 32-symbol alphabet.

use vstd::prelude::*;
use vstd::string::StrSliceExecFns;
use vstd::string::StringExecFns;

verus! {

/// The input alphabet: the 95 characters that may occur in a descriptor. The
/// position of a character here is its code; the low five bits of the code are
/// fed to the polynomial directly, the high bits form its grouping class.
pub open spec fn input_charset() -> Seq<char> {
    "0123456789()[],'/*abcdefgh@:$%{}IJKLMNOPQRSTUVWXYZ&+-.;<=>?!^_|~ijklmnopqrstuvwxyzABCDEFGH`#\"\\ "@
}

/// The output alphabet: the 32 characters used to render checksum digits.
pub open spec fn output_charset() -> Seq<char> {
    "qpzry9x8gf2tvdw0s3jn54khce6mua7l"@
}

/// The code of a character: its position in the input alphabet, or `None` for
/// a character outside the alphabet.
pub open spec fn char_code(ch: char) -> Option<int> {
    input_charset().index_of_first(ch)
}

/// Failure of a checksum computation. The one failure mode: the descriptor
/// holds a character outside the input alphabet; the first such character is
/// carried in the error.
#[derive(Clone, Copy, Debug, PartialEq, Eq, Structural)]
pub enum Error {
    InvalidDescriptorCharacter(char),
}

/// One step of the feedback transform: shift five fresh bits into the 40-bit
/// state and reduce by the generator polynomial, whose five taps are the fixed
/// 40-bit constants below. The constants encode the generator polynomial of
/// the network-wide standard and must be kept bit for bit.
pub open spec fn spec_poly_mod(c: u64, val: u64) -> u64 {
    let c0 = c >> 35;
    let shifted = ((c & 0x7ffffffff) << 5) ^ val;
    let t0 = if c0 & 1 != 0 { shifted ^ 0xf5dee51989 } else { shifted };
    let t1 = if c0 & 2 != 0 { t0 ^ 0xa9fdca3312 } else { t0 };
    let t2 = if c0 & 4 != 0 { t1 ^ 0x1bab10e32d } else { t1 };
    let t3 = if c0 & 8 != 0 { t2 ^ 0x3706b1677a } else { t2 };
    if c0 & 16 != 0 { t3 ^ 0x644d626ffd } else { t3 }
}

fn poly_mod(c: u64, val: u64) -> (r: u64)
    ensures
        r == spec_poly_mod(c, val),
{
    let c0 = c >> 35;
    let mut acc = ((c & 0x7ffffffff) << 5) ^ val;
    if c0 & 1 != 0 {
        acc ^= 0xf5dee51989;
    }
    if c0 & 2 != 0 {
        acc ^= 0xa9fdca3312;
    }
    if c0 & 4 != 0 {
        acc ^= 0x1bab10e32d;
    }
    if c0 & 8 != 0 {
        acc ^= 0x3706b1677a;
    }
    if c0 & 16 != 0 {
        acc ^= 0x644d626ffd;
    }
    acc
}

fn input_charset_str() -> (r: &'static str)
    ensures
        r@ == input_charset(),
        r@.len() == 95,
{
    proof {
        reveal_strlit(
            "0123456789()[],'/*abcdefgh@:$%{}IJKLMNOPQRSTUVWXYZ&+-.;<=>?!^_|~ijklmnopqrstuvwxyzABCDEFGH`#\"\\ ",
        );
    }
    "0123456789()[],'/*abcdefgh@:$%{}IJKLMNOPQRSTUVWXYZ&+-.;<=>?!^_|~ijklmnopqrstuvwxyzABCDEFGH`#\"\\ "
}

/// Look a character up in the input alphabet, as the first position at which
/// it occurs; characters outside the alphabet have none.
fn find_char_code(ch: char) -> (r: Option<u8>)
    ensures
        (r matches Some(p) ==> char_code(ch) == Some(p as int) && p < 95),
        (r is None ==> char_code(ch) is None),
{
    let cs = input_charset_str();
    let n = cs.unicode_len();
    let mut i: usize = 0;
    while i < n
        invariant
            0 <= i <= n,
            n == 95,
            n == input_charset().len(),
            cs@ == input_charset(),
            forall|j: int| 0 <= j < i ==> input_charset()[j] != ch,
        decreases n - i,
    {
        if cs.get_char(i) == ch {
            proof {
                input_charset().index_of_first_ensures(ch);
                assert(input_charset().contains(ch));
            }
            return Some(i as u8);
        }
        i += 1;
    }
    proof {
        input_charset().index_of_first_ensures(ch);
        assert(forall|j: int| 0 <= j < input_charset().len() ==> input_charset()[j] != ch);
    }
    None
}

/// Every character of the sequence lies in the input alphabet.
pub open spec fn valid_chars(s: Seq<char>) -> bool {
    forall|i: int| 0 <= i < s.len() ==> (#[trigger] char_code(s[i])) is Some
}

/// The state of the single left-to-right pass after consuming `s`: the
/// polynomial accumulator (started at 1), the class accumulator, and the count
/// of class digits gathered since the last class feed. Each character feeds
/// the low five bits of its code to the polynomial at once; its class digit
/// (the high bits) is packed, base 3, with up to two neighbours, and every
/// third character the packed value is fed and the class state reset.
pub open spec fn engine(s: Seq<char>) -> (u64, u64, u64)
    recommends
        valid_chars(s),
    decreases s.len(),
{
    if s.len() == 0 {
        (1u64, 0u64, 0u64)
    } else {
        let prev = engine(s.drop_last());
        let code = (char_code(s.last())->0) as u64;
        let c = spec_poly_mod(prev.0, code & 31);
        let cls = (prev.1 * 3 + (code >> 5)) as u64;
        if prev.2 == 2 {
            (spec_poly_mod(c, cls), 0u64, 0u64)
        } else {
            (c, cls, (prev.2 + 1) as u64)
        }
    }
}

/// Feed `k` zero values into the polynomial.
pub open spec fn flush(c: u64, k: nat) -> u64
    decreases k,
{
    if k == 0 {
        c
    } else {
        spec_poly_mod(flush(c, (k - 1) as nat), 0)
    }
}

/// The final 40-bit value for a descriptor: the pass over its characters, a
/// feed of any leftover class digits, eight zero feeds that flush the check
/// symbols out, and a final whitening by 1 (so that an all-zero message does
/// not yield an all-zero checksum).
pub open spec fn final_value(s: Seq<char>) -> u64
    recommends
        valid_chars(s),
{
    let st = engine(s);
    let c = if st.2 > 0 {
        spec_poly_mod(st.0, st.1)
    } else {
        st.0
    };
    flush(c, 8) ^ 1
}

/// The checksum of a descriptor: the final value read as eight 5-bit digits,
/// most significant first, each rendered through the output alphabet.
pub open spec fn spec_checksum(s: Seq<char>) -> Seq<char>
    recommends
        valid_chars(s),
{
    Seq::new(8, |j: int| output_charset()[(((final_value(s) >> ((5 * (7 - j)) as u64)) & 31) as int)])
}

fn output_charset_str() -> (r: &'static str)
    ensures
        r@ == output_charset(),
        r@.len() == 32,
{
    proof {
        reveal_strlit("qpzry9x8gf2tvdw0s3jn54khce6mua7l");
    }
    "qpzry9x8gf2tvdw0s3jn54khce6mua7l"
}

/// Compute the checksum of a descriptor.
///
/// Either every character of the descriptor lies in the input alphabet and the
/// result is exactly the 8-character checksum of the code, or the computation
/// fails, and the error carries the first character that lies outside the
/// alphabet.
pub fn get_checksum(desc: &str) -> (r: Result<String, Error>)
    ensures
        valid_chars(desc@) ==> (r matches Ok(cs) && cs@ == spec_checksum(desc@)),
        !valid_chars(desc@) ==> (exists|i: int|
            0 <= i < desc@.len()
                && (#[trigger] char_code(desc@[i])) is None
                && (forall|j: int| 0 <= j < i ==> char_code(desc@[j]) is Some)
                && r == Result::<String, Error>::Err(Error::InvalidDescriptorCharacter(desc@[i]))),
{
    let n = desc.unicode_len();
    let mut c: u64 = 1;
    let mut cls: u64 = 0;
    let mut clscount: u64 = 0;
    let mut i: usize = 0;
    while i < n
        invariant
            i <= n,
            n == desc@.len(),
            forall|j: int| 0 <= j < i ==> (#[trigger] char_code(desc@[j])) is Some,
            (c, cls, clscount) == engine(desc@.take(i as int)),
            clscount <= 2,
            clscount == 0 ==> cls == 0,
            clscount == 1 ==> cls <= 2,
            clscount == 2 ==> cls <= 8,
        decreases n - i,
    {
        let ch = desc.get_char(i);
        match find_char_code(ch) {
            None => {
                return Err(Error::InvalidDescriptorCharacter(ch));
            },
            Some(p) => {
                let pos = p as u64;
                assert(pos & 31 <= 31 && pos >> 5 <= 2) by (bit_vector)
                    requires
                        pos < 95,
                ;
                c = poly_mod(c, pos & 31);
                cls = cls * 3 + (pos >> 5);
                clscount = clscount + 1;
                if clscount == 3 {
                    c = poly_mod(c, cls);
                    cls = 0;
                    clscount = 0;
                }
                proof {
                    assert(desc@.take(i + 1 as int).drop_last() =~= desc@.take(i as int));
                    assert(desc@.take(i + 1 as int).last() == desc@[i as int]);
                }
                i = i + 1;
            },
        }
    }
    proof {
        assert(desc@.take(n as int) =~= desc@);
    }
    if clscount > 0 {
        c = poly_mod(c, cls);
    }
    let ghost c_mid: u64 = c;
    let mut k: usize = 0;
    while k < 8
        invariant
            k <= 8,
            c == flush(c_mid, k as nat),
        decreases 8 - k,
    {
        c = poly_mod(c, 0);
        k = k + 1;
    }
    c = c ^ 1;
    assert(c == final_value(desc@));

    let cs_out = output_charset_str();
    let mut out = String::new();
    proof {
        assert(out@ =~= spec_checksum(desc@).take(0));
    }
    let mut j: usize = 0;
    while j < 8
        invariant
            j <= 8,
            cs_out@ == output_charset(),
            cs_out@.len() == 32,
            c == final_value(desc@),
            out@ == spec_checksum(desc@).take(j as int),
        decreases 8 - j,
    {
        let shift: u64 = (5 * (7 - j)) as u64;
        let v = (c >> shift) & 31;
        assert((c >> shift) & 31 < 32) by (bit_vector);
        let piece = cs_out.substring_char(v as usize, v as usize + 1);
        out.append(piece);
        proof {
            assert(piece@ =~= seq![output_charset()[v as int]]);
            assert(out@ =~= spec_checksum(desc@).take(j + 1 as int));
        }
        j = j + 1;
    }
    proof {
        assert(spec_checksum(desc@).take(8) =~= spec_checksum(desc@));
    }
    Ok(out)
}

/// Determinism: the checksum of a descriptor is one value; two computations
/// over equal character sequences agree.
pub proof fn lemma_checksum_deterministic(s1: Seq<char>, s2: Seq<char>)
    requires
        s1 == s2,
        valid_chars(s1),
    ensures
        spec_checksum(s1) == spec_checksum(s2),
{
}

/// Alphabet closure: a descriptor that holds any character outside the input
/// alphabet is not valid, so by the contract of `get_checksum` it yields the
/// invalid-character error and never a checksum.
pub proof fn lemma_alphabet_closure(s: Seq<char>, i: int)
    requires
        0 <= i < s.len(),
        char_code(s[i]) is None,
    ensures
        !valid_chars(s),
{
}

/// Fixed output shape: the checksum of a valid descriptor has exactly eight
/// characters, each drawn from the output alphabet.
pub proof fn lemma_checksum_shape(s: Seq<char>)
    requires
        valid_chars(s),
    ensures
        spec_checksum(s).len() == 8,
        forall|j: int| 0 <= j < 8 ==> output_charset().contains(#[trigger] spec_checksum(s)[j]),
{
    reveal_strlit("qpzry9x8gf2tvdw0s3jn54khce6mua7l");
    assert forall|j: int| 0 <= j < 8 implies output_charset().contains(
        #[trigger] spec_checksum(s)[j],
    ) by {
        let fv = final_value(s);
        let sh = (5 * (7 - j)) as u64;
        assert((fv >> sh) & 31 < 32) by (bit_vector);
        let v = ((fv >> sh) & 31) as int;
        assert(spec_checksum(s)[j] == output_charset()[v]);
        assert(output_charset().contains(output_charset()[v]));
    }
}

} // verus!
