//! Key namespacing and the reserved ledger keys.
//!
//! Every key that reaches the store first passes through the namespacer: when
//! a label is configured, the storage key is `label ++ "://" ++ key`; when no
//! label is configured the key is used unchanged.

use vstd::prelude::*;

verus! {

/// The bytes of the `"://"` separator placed between a namespace label and a key.
pub open spec fn separator() -> Seq<u8> {
    seq![58u8, 47u8, 47u8]
}

/// The view of an optional label held as bytes.
pub open spec fn label_view(label: Option<Vec<u8>>) -> Option<Seq<u8>> {
    match label {
        Some(l) => Some(l@),
        None => None,
    }
}

/// The storage key that a raw key maps to under an optional namespace label.
pub open spec fn labeled_key(label: Option<Seq<u8>>, key: Seq<u8>) -> Seq<u8> {
    match label {
        Some(l) => l + separator() + key,
        None => key,
    }
}

/// Appends all bytes of `src` to `dst`.
pub fn push_all(dst: &mut Vec<u8>, src: &Vec<u8>)
    ensures
        final(dst)@ == old(dst)@ + src@,
{
    let mut i: usize = 0;
    while i < src.len()
        invariant
            i <= src.len(),
            dst@ == old(dst)@ + src@.take(i as int),
        decreases src.len() - i,
    {
        dst.push(src[i]);
        assert(src@.take(i + 1 as int) =~= src@.take(i as int).push(src@[i as int]));
        i = i + 1;
    }
    assert(src@.take(src@.len() as int) =~= src@);
}

/// Maps a raw key to its storage key: with a label set, the label, the
/// separator and the key are concatenated; with no label, the key is returned
/// unchanged.
pub fn to_labeled_key(key: &Vec<u8>, label: &Option<Vec<u8>>) -> (r: Vec<u8>)
    ensures
        r@ == labeled_key(label_view(*label), key@),
{
    match label {
        Some(l) => {
            let mut r: Vec<u8> = Vec::new();
            push_all(&mut r, l);
            r.push(58u8);
            r.push(47u8);
            r.push(47u8);
            push_all(&mut r, key);
            assert(r@ =~= l@ + separator() + key@);
            r
        }
        None => {
            let mut r: Vec<u8> = Vec::new();
            push_all(&mut r, key);
            assert(r@ =~= key@);
            r
        }
    }
}

/// Wraps a value as the store's single-argument form, unlabeled.
pub fn to_redis_args(v: &Vec<u8>) -> (r: Vec<Vec<u8>>)
    ensures
        r@.len() == 1,
        r@[0]@ == v@,
{
    let mut r: Vec<Vec<u8>> = Vec::new();
    r.push(v.clone());
    r
}

/// Wraps a key as the store's single-argument form, with the namespace label
/// applied.
pub fn to_redis_key(v: &Vec<u8>, label: &Option<Vec<u8>>) -> (r: Vec<Vec<u8>>)
    ensures
        r@.len() == 1,
        r@[0]@ == labeled_key(label_view(*label), v@),
{
    let mut r: Vec<Vec<u8>> = Vec::new();
    r.push(to_labeled_key(v, label));
    r
}

/// The reserved key that holds the tip height: `"/__INTERNAL/tip-height"`.
pub open spec fn tip_key_spec() -> Seq<u8> {
    seq![
        47u8, 95u8, 95u8, 73u8, 78u8, 84u8, 69u8, 82u8, 78u8, 65u8, 76u8, 47u8, 116u8, 105u8,
        112u8, 45u8, 104u8, 101u8, 105u8, 103u8, 104u8, 116u8,
    ]
}

/// Builds the reserved tip-height key.
pub fn tip_height_key() -> (r: Vec<u8>)
    ensures
        r@ == tip_key_spec(),
{
    let r: Vec<u8> = vec![
        47u8, 95u8, 95u8, 73u8, 78u8, 84u8, 69u8, 82u8, 78u8, 65u8, 76u8, 47u8, 116u8, 105u8,
        112u8, 45u8, 104u8, 101u8, 105u8, 103u8, 104u8, 116u8,
    ];
    assert(r@ =~= tip_key_spec());
    r
}

/// The reserved prefix for per-height blockhash records:
/// `"/__INTERNAL/height-to-hash/"`.
pub open spec fn height_to_hash_prefix() -> Seq<u8> {
    seq![
        47u8, 95u8, 95u8, 73u8, 78u8, 84u8, 69u8, 82u8, 78u8, 65u8, 76u8, 47u8, 104u8, 101u8,
        105u8, 103u8, 104u8, 116u8, 45u8, 116u8, 111u8, 45u8, 104u8, 97u8, 115u8, 104u8, 47u8,
    ]
}

/// The decimal digits of `n` in ASCII, most significant first, no leading
/// zeros (the single digit `0` for zero).
pub open spec fn decimal(n: nat) -> Seq<u8>
    decreases n,
{
    if n < 10 {
        seq![(48 + n) as u8]
    } else {
        decimal(n / 10).push((48 + n % 10) as u8)
    }
}

/// Appends the decimal ASCII digits of `n` to `out`.
pub fn push_decimal(out: &mut Vec<u8>, n: u32)
    ensures
        final(out)@ == old(out)@ + decimal(n as nat),
    decreases n,
{
    if n < 10 {
        out.push(48u8 + n as u8);
        assert(out@ =~= old(out)@ + decimal(n as nat));
    } else {
        push_decimal(out, n / 10);
        out.push(48u8 + (n % 10) as u8);
        assert(out@ =~= old(out)@ + decimal(n as nat));
    }
}

/// Builds the reserved per-height blockhash key: the prefix followed by the
/// decimal digits of the height.
pub fn height_to_hash_key(height: u32) -> (r: Vec<u8>)
    ensures
        r@ == height_to_hash_prefix() + decimal(height as nat),
{
    let mut r: Vec<u8> = vec![
        47u8, 95u8, 95u8, 73u8, 78u8, 84u8, 69u8, 82u8, 78u8, 65u8, 76u8, 47u8, 104u8, 101u8,
        105u8, 103u8, 104u8, 116u8, 45u8, 116u8, 111u8, 45u8, 104u8, 97u8, 115u8, 104u8, 47u8,
    ];
    assert(r@ =~= height_to_hash_prefix());
    push_decimal(&mut r, height);
    r
}

} // verus!
