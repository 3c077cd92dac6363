//! Base64 with the standard alphabet and `=` padding, which the image host
//! takes a diagram in.

use vstd::prelude::*;

verus! {

/// The 64 digits, in the order of their values.
pub open spec fn alphabet() -> Seq<char> {
    "ABCDEFGHIJKLMNOPQRSTUVWXYZabcdefghijklmnopqrstuvwxyz0123456789+/"@
}

/// The digit of the value `v`, as a text of one character.
pub open spec fn digit(v: int) -> Seq<char> {
    alphabet().subrange(v, v + 1)
}

/// The four characters that stand for up to three bytes, `group.len()` being
/// 1, 2 or 3: six bits to a digit, highest first, and `=` for each missing byte.
pub open spec fn encoded_group(group: Seq<u8>) -> Seq<char> {
    let b0 = group[0] as int;
    if group.len() == 1 {
        digit(b0 / 4) + digit((b0 % 4) * 16) + "=="@
    } else if group.len() == 2 {
        let b1 = group[1] as int;
        digit(b0 / 4) + digit((b0 % 4) * 16 + b1 / 16) + digit((b1 % 16) * 4) + "="@
    } else {
        let b1 = group[1] as int;
        let b2 = group[2] as int;
        digit(b0 / 4) + digit((b0 % 4) * 16 + b1 / 16) + digit((b1 % 16) * 4 + b2 / 64) + digit(
            b2 % 64,
        )
    }
}

/// The Base64 text of `bytes`: each full group of three bytes in turn, then
/// the padded group of the one or two bytes that are left.
pub open spec fn encoded(bytes: Seq<u8>) -> Seq<char>
    decreases bytes.len(),
{
    if bytes.len() == 0 {
        Seq::empty()
    } else if bytes.len() <= 3 {
        encoded_group(bytes)
    } else {
        encoded_group(bytes.take(3)) + encoded(bytes.skip(3))
    }
}

/// Appending a group to the encoding of whole groups.
proof fn lemma_encoded_append(done: Seq<u8>, group: Seq<u8>)
    requires
        done.len() % 3 == 0,
        1 <= group.len() <= 3,
    ensures
        encoded(done + group) == encoded(done) + encoded_group(group),
    decreases done.len(),
{
    if done.len() == 0 {
        assert(done + group =~= group);
        assert(encoded(done) + encoded_group(group) =~= encoded_group(group));
    } else {
        let all = done + group;
        assert(all.take(3) =~= done.take(3));
        assert(all.skip(3) =~= done.skip(3) + group);
        if done.len() == 3 {
            assert(done.take(3) =~= done);
            assert(done.skip(3) =~= Seq::<u8>::empty());
            lemma_encoded_append(done.skip(3), group);
            assert(encoded(done.skip(3)) =~= Seq::<char>::empty());
            assert(encoded(done) + encoded_group(group) =~= encoded_group(done.take(3)) + (encoded(
                done.skip(3),
            ) + encoded_group(group)));
        } else {
            lemma_encoded_append(done.skip(3), group);
            assert(encoded(done) + encoded_group(group) =~= encoded_group(done.take(3)) + (encoded(
                done.skip(3),
            ) + encoded_group(group)));
        }
    }
}

/// Every group, full or padded, is written as four characters.
proof fn lemma_group_length(group: Seq<u8>)
    requires
        1 <= group.len() <= 3,
    ensures
        encoded_group(group).len() == 4,
{
    reveal_strlit("ABCDEFGHIJKLMNOPQRSTUVWXYZabcdefghijklmnopqrstuvwxyz0123456789+/");
    reveal_strlit("==");
    reveal_strlit("=");
}

/// Base64 writes four characters for every three bytes begun.
pub proof fn lemma_encoded_length(bytes: Seq<u8>)
    ensures
        encoded(bytes).len() == 4 * ((bytes.len() + 2) / 3),
    decreases bytes.len(),
{
    if bytes.len() == 0 {
    } else if bytes.len() <= 3 {
        lemma_group_length(bytes);
    } else {
        lemma_group_length(bytes.take(3));
        lemma_encoded_length(bytes.skip(3));
    }
}

/// Appends the digit of `v` to `out`.
fn push_digit(out: &mut String, v: u8)
    requires
        v < 64,
    ensures
        final(out)@ == old(out)@ + digit(v as int),
{
    let digits = "ABCDEFGHIJKLMNOPQRSTUVWXYZabcdefghijklmnopqrstuvwxyz0123456789+/";
    proof {
        reveal_strlit("ABCDEFGHIJKLMNOPQRSTUVWXYZabcdefghijklmnopqrstuvwxyz0123456789+/");
    }
    let at: usize = v as usize;
    out.append(digits.substring_char(at, at + 1));
}

/// Writes `bytes` in Base64, standard alphabet, padded with `=`.
pub fn encode(bytes: &Vec<u8>) -> (r: String)
    ensures
        r@ == encoded(bytes@),
{
    let mut out = String::new();
    let n = bytes.len();
    let mut i: usize = 0;
    while n - i >= 3
        invariant
            i <= n,
            n == bytes@.len(),
            i % 3 == 0,
            out@ == encoded(bytes@.take(i as int)),
        decreases n - i,
    {
        let b0 = bytes[i];
        let b1 = bytes[i + 1];
        let b2 = bytes[i + 2];
        let ghost before = out@;
        push_digit(&mut out, b0 / 4);
        push_digit(&mut out, (b0 % 4) * 16 + b1 / 16);
        push_digit(&mut out, (b1 % 16) * 4 + b2 / 64);
        push_digit(&mut out, b2 % 64);
        proof {
            let group = bytes@.subrange(i as int, i + 3);
            lemma_encoded_append(bytes@.take(i as int), group);
            assert(bytes@.take(i as int) + group =~= bytes@.take(i + 3));
            assert(out@ =~= before + encoded_group(group));
        }
        i = i + 3;
    }
    if n - i == 1 {
        let b0 = bytes[i];
        let ghost before = out@;
        push_digit(&mut out, b0 / 4);
        push_digit(&mut out, (b0 % 4) * 16);
        out.append("==");
        proof {
            let group = bytes@.subrange(i as int, n as int);
            lemma_encoded_append(bytes@.take(i as int), group);
            assert(bytes@.take(i as int) + group =~= bytes@);
            assert(out@ =~= before + encoded_group(group));
        }
    } else if n - i == 2 {
        let b0 = bytes[i];
        let b1 = bytes[i + 1];
        let ghost before = out@;
        push_digit(&mut out, b0 / 4);
        push_digit(&mut out, (b0 % 4) * 16 + b1 / 16);
        push_digit(&mut out, (b1 % 16) * 4);
        out.append("=");
        proof {
            let group = bytes@.subrange(i as int, n as int);
            lemma_encoded_append(bytes@.take(i as int), group);
            assert(bytes@.take(i as int) + group =~= bytes@);
            assert(out@ =~= before + encoded_group(group));
        }
    } else {
        assert(bytes@.take(i as int) =~= bytes@);
    }
    out
}

} // verus!
