use vstd::prelude::*;

use crate::float::Float;

verus! {

/// A piece of text shown to players. Text made of pieces reads as the
/// pieces one after the other; the numeric pieces are rendered the way Rust
/// displays an `f32` (`{}`).
#[derive(Clone, Copy, Debug)]
pub enum TextPiece {
    /// Literal text.
    Text(&'static str),
    /// The number itself.
    Number(Float),
    /// `(1.0 - x) * 100.0`, computed in single precision: the percentage by
    /// which a factor `x` below one decreases a value.
    PercentBelowOne(Float),
    /// `(x - 1.0) * 100.0`, computed in single precision: the percentage by
    /// which a factor `x` above one increases a value.
    PercentAboveOne(Float),
}

/// `parts` with `separator` between each two of them.
pub open spec fn join(parts: Seq<Seq<TextPiece>>, separator: Seq<TextPiece>) -> Seq<TextPiece>
    decreases parts.len(),
{
    if parts.len() == 0 {
        Seq::empty()
    } else if parts.len() == 1 {
        parts[0]
    } else {
        join(parts.drop_last(), separator) + separator + parts.last()
    }
}

pub proof fn lemma_join_push(parts: Seq<Seq<TextPiece>>, separator: Seq<TextPiece>, part: Seq<TextPiece>)
    requires
        parts.len() > 0,
    ensures
        join(parts.push(part), separator) == join(parts, separator) + separator + part,
{
    assert(parts.push(part).drop_last() =~= parts);
}

} // verus!
