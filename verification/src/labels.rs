//! Labels of the sub-assets a model is loaded with.

use vstd::prelude::*;

use crate::strings::string_from_chars;

verus! {

#[derive(Debug, Clone, Copy, PartialEq, Eq, Hash)]
pub enum PmxAssetLabel {
    Root,
    Mesh,
    Texture(usize),
    Material(usize),
    Bone(usize),
    Morph(usize),
    Primitive(usize),
    RigidBody(usize),
    Joint(usize),
    SoftBody(usize),
}

/// The decimal digit for `d < 10`.
pub open spec fn digit_char(d: nat) -> char {
    ((48 + d) as u8) as char
}

/// The decimal form of `n`, without leading zeros.
pub open spec fn decimal(n: nat) -> Seq<char>
    decreases n,
{
    if n < 10 {
        seq![digit_char(n)]
    } else {
        decimal(n / 10).push(digit_char(n % 10))
    }
}

/// Appends the decimal form of `n`.
fn push_decimal(out: &mut Vec<char>, n: usize)
    ensures
        final(out)@ == old(out)@ + decimal(n as nat),
    decreases n,
{
    if n >= 10 {
        push_decimal(out, n / 10);
    }
    let d = (n % 10) as u8;
    out.push((48u8 + d) as char);
    assert(final(out)@ =~= old(out)@ + decimal(n as nat));
}

fn push_str(out: &mut Vec<char>, s: &str)
    ensures
        final(out)@ == old(out)@ + s@,
{
    let n = s.unicode_len();
    let mut i: usize = 0;
    while i < n
        invariant
            n == s@.len(),
            i <= n,
            out@ == old(out)@ + s@.take(i as int),
        decreases n - i,
    {
        out.push(s.get_char(i));
        assert(s@.take(i + 1) =~= s@.take(i as int).push(s@[i as int]));
        i = i + 1;
    }
    assert(s@.take(n as int) =~= s@);
}

/// A kind name followed by `/` and an index.
pub open spec fn indexed(kind: Seq<char>, index: usize) -> Seq<char> {
    kind + seq!['/'] + decimal(index as nat)
}

/// The text of a label: `Root`, `Mesh`, or the kind of sub-asset, `/` and its index.
pub open spec fn label_text(label: PmxAssetLabel) -> Seq<char> {
    match label {
        PmxAssetLabel::Root => "Root"@,
        PmxAssetLabel::Mesh => "Mesh"@,
        PmxAssetLabel::Texture(i) => indexed("Texture"@, i),
        PmxAssetLabel::Material(i) => indexed("Material"@, i),
        PmxAssetLabel::Bone(i) => indexed("Bone"@, i),
        PmxAssetLabel::Morph(i) => indexed("Morph"@, i),
        PmxAssetLabel::Primitive(i) => indexed("Primitive"@, i),
        PmxAssetLabel::RigidBody(i) => indexed("RigidBody"@, i),
        PmxAssetLabel::Joint(i) => indexed("Joint"@, i),
        PmxAssetLabel::SoftBody(i) => indexed("SoftBody"@, i),
    }
}

fn indexed_text(kind: &str, index: usize) -> (r: String)
    ensures
        r@ == indexed(kind@, index),
{
    let mut out: Vec<char> = Vec::new();
    push_str(&mut out, kind);
    out.push('/');
    push_decimal(&mut out, index);
    assert(out@ =~= indexed(kind@, index));
    string_from_chars(out.as_slice())
}

impl PmxAssetLabel {
    /// The label as text, which names the sub-asset.
    pub fn to_string(&self) -> (r: String)
        ensures
            r@ == label_text(*self),
    {
        match *self {
            PmxAssetLabel::Root => crate::strings::string_of("Root"),
            PmxAssetLabel::Mesh => crate::strings::string_of("Mesh"),
            PmxAssetLabel::Texture(i) => indexed_text("Texture", i),
            PmxAssetLabel::Material(i) => indexed_text("Material", i),
            PmxAssetLabel::Bone(i) => indexed_text("Bone", i),
            PmxAssetLabel::Morph(i) => indexed_text("Morph", i),
            PmxAssetLabel::Primitive(i) => indexed_text("Primitive", i),
            PmxAssetLabel::RigidBody(i) => indexed_text("RigidBody", i),
            PmxAssetLabel::Joint(i) => indexed_text("Joint", i),
            PmxAssetLabel::SoftBody(i) => indexed_text("SoftBody", i),
        }
    }
}

/// The value of a string of decimal digits.
pub open spec fn digits_value(s: Seq<char>) -> int
    decreases s.len(),
{
    if s.len() == 0 {
        0
    } else {
        digits_value(s.drop_last()) * 10 + (s.last() as int - 48)
    }
}

/// An index is written in decimal: one or more digits, with no leading zero, whose value is the
/// index.
pub proof fn lemma_decimal_digits(n: nat)
    ensures
        decimal(n).len() >= 1,
        forall|k: int| 0 <= k < decimal(n).len() ==> '0' <= #[trigger] decimal(n)[k] && decimal(n)[k] <= '9',
        decimal(n)[0] == '0' ==> n == 0,
        digits_value(decimal(n)) == n,
    decreases n,
{
    if n >= 10 {
        lemma_decimal_digits(n / 10);
        let d = decimal(n);
        assert(d.drop_last() =~= decimal(n / 10));
        assert(d[0] == decimal(n / 10)[0]);
        assert(d.last() == digit_char((n % 10) as nat));
        assert(digit_char((n % 10) as nat) as int == 48 + n % 10);
        assert((n / 10) * 10 + n % 10 == n) by (nonlinear_arith);
        assert(digits_value(d) == digits_value(d.drop_last()) * 10 + (d.last() as int - 48));
        assert(digits_value(d.drop_last()) == n / 10);
    } else {
        assert(decimal(n).drop_last() =~= Seq::<char>::empty());
        assert(digit_char(n) as int == 48 + n);
        assert(digits_value(decimal(n)) == digits_value(decimal(n).drop_last()) * 10 + (decimal(n).last() as int - 48));
    }
}

/// The name of each sub-asset: `Root`, `Mesh`, or the kind, a slash and the decimal index.
pub proof fn lemma_label_names(index: usize)
    ensures
        label_text(PmxAssetLabel::Root) == seq!['R', 'o', 'o', 't'],
        label_text(PmxAssetLabel::Mesh) == seq!['M', 'e', 's', 'h'],
        label_text(PmxAssetLabel::Texture(index)) == seq!['T', 'e', 'x', 't', 'u', 'r', 'e', '/'] + decimal(index as nat),
        label_text(PmxAssetLabel::Material(index)) == seq!['M', 'a', 't', 'e', 'r', 'i', 'a', 'l', '/'] + decimal(index as nat),
        label_text(PmxAssetLabel::Bone(index)) == seq!['B', 'o', 'n', 'e', '/'] + decimal(index as nat),
        label_text(PmxAssetLabel::Morph(index)) == seq!['M', 'o', 'r', 'p', 'h', '/'] + decimal(index as nat),
        label_text(PmxAssetLabel::Primitive(index)) == seq!['P', 'r', 'i', 'm', 'i', 't', 'i', 'v', 'e', '/'] + decimal(index as nat),
        label_text(PmxAssetLabel::RigidBody(index)) == seq!['R', 'i', 'g', 'i', 'd', 'B', 'o', 'd', 'y', '/'] + decimal(index as nat),
        label_text(PmxAssetLabel::Joint(index)) == seq!['J', 'o', 'i', 'n', 't', '/'] + decimal(index as nat),
        label_text(PmxAssetLabel::SoftBody(index)) == seq!['S', 'o', 'f', 't', 'B', 'o', 'd', 'y', '/'] + decimal(index as nat),
{
    reveal_strlit("Root");
    reveal_strlit("Mesh");
    reveal_strlit("Texture");
    reveal_strlit("Material");
    reveal_strlit("Bone");
    reveal_strlit("Morph");
    reveal_strlit("Primitive");
    reveal_strlit("RigidBody");
    reveal_strlit("Joint");
    reveal_strlit("SoftBody");
}

} // verus!
