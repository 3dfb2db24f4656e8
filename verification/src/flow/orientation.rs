//! EXIF orientation: the steps that turn an image stored in one of the eight orientations
//! upright, the primitive flips and transpositions each step becomes, and what the steps do to
//! the frame estimate.
use vstd::prelude::*;
use crate::flow::definitions::{transposed_estimate, transposed_info, FrameEstimate, FrameInfo};

verus! {

/// A step of reorientation.
#[derive(Copy, Clone, Debug, PartialEq, Eq, Structural)]
pub enum OrientStep {
    Rotate90,
    Rotate180,
    Rotate270,
    Transpose,
    FlipV,
    FlipH,
}

/// A primitive operation that the steps are made of.
#[derive(Copy, Clone, Debug, PartialEq, Eq, Structural)]
pub enum Primitive {
    Transpose,
    FlipV,
    FlipH,
}

/// The steps that apply EXIF orientation `flag`: 2 flips horizontally, 3 rotates by 180, 4 flips
/// vertically, 5 transposes, 6 rotates by 270, 7 rotates by 180 and transposes, 8 rotates by
/// 90; any other flag needs nothing.
pub open spec fn spec_orientation_steps(flag: i32) -> Seq<OrientStep> {
    if flag == 7 {
        seq![OrientStep::Rotate180, OrientStep::Transpose]
    } else if flag == 8 {
        seq![OrientStep::Rotate90]
    } else if flag == 6 {
        seq![OrientStep::Rotate270]
    } else if flag == 5 {
        seq![OrientStep::Transpose]
    } else if flag == 4 {
        seq![OrientStep::FlipV]
    } else if flag == 3 {
        seq![OrientStep::Rotate180]
    } else if flag == 2 {
        seq![OrientStep::FlipH]
    } else {
        Seq::empty()
    }
}

/// The primitives a step is replaced by: a rotation by 90 transposes then flips vertically, by
/// 180 flips vertically then horizontally, by 270 flips vertically then transposes.
pub open spec fn spec_step_primitives(s: OrientStep) -> Seq<Primitive> {
    match s {
        OrientStep::Rotate90 => seq![Primitive::Transpose, Primitive::FlipV],
        OrientStep::Rotate180 => seq![Primitive::FlipV, Primitive::FlipH],
        OrientStep::Rotate270 => seq![Primitive::FlipV, Primitive::Transpose],
        OrientStep::Transpose => seq![Primitive::Transpose],
        OrientStep::FlipV => seq![Primitive::FlipV],
        OrientStep::FlipH => seq![Primitive::FlipH],
    }
}

/// The steps that apply EXIF orientation `flag`, as `spec_orientation_steps` lists them.
pub fn orientation_steps(flag: i32) -> (r: Vec<OrientStep>)
    ensures
        r@ == spec_orientation_steps(flag),
{
    let mut r: Vec<OrientStep> = Vec::new();
    if flag == 7 {
        r.push(OrientStep::Rotate180);
        r.push(OrientStep::Transpose);
    } else if flag == 8 {
        r.push(OrientStep::Rotate90);
    } else if flag == 6 {
        r.push(OrientStep::Rotate270);
    } else if flag == 5 {
        r.push(OrientStep::Transpose);
    } else if flag == 4 {
        r.push(OrientStep::FlipV);
    } else if flag == 3 {
        r.push(OrientStep::Rotate180);
    } else if flag == 2 {
        r.push(OrientStep::FlipH);
    }
    proof {
        assert(r@ =~= spec_orientation_steps(flag));
    }
    r
}

/// The primitives a step is replaced by, as `spec_step_primitives` lists them.
pub fn step_primitives(s: OrientStep) -> (r: Vec<Primitive>)
    ensures
        r@ == spec_step_primitives(s),
{
    let mut r: Vec<Primitive> = Vec::new();
    match s {
        OrientStep::Rotate90 => {
            r.push(Primitive::Transpose);
            r.push(Primitive::FlipV);
        },
        OrientStep::Rotate180 => {
            r.push(Primitive::FlipV);
            r.push(Primitive::FlipH);
        },
        OrientStep::Rotate270 => {
            r.push(Primitive::FlipV);
            r.push(Primitive::Transpose);
        },
        OrientStep::Transpose => {
            r.push(Primitive::Transpose);
        },
        OrientStep::FlipV => {
            r.push(Primitive::FlipV);
        },
        OrientStep::FlipH => {
            r.push(Primitive::FlipH);
        },
    }
    proof {
        assert(r@ =~= spec_step_primitives(s));
    }
    r
}

/// The estimate after a step: rotations by 90 or 270 and transpositions exchange width and
/// height (of exact and upper-bound frames); the others keep the estimate.
pub open spec fn step_estimate(s: OrientStep, e: FrameEstimate) -> FrameEstimate {
    match s {
        OrientStep::Rotate90 | OrientStep::Rotate270 | OrientStep::Transpose => transposed_estimate(e),
        _ => e,
    }
}

/// The estimate after a primitive.
pub open spec fn primitive_estimate(p: Primitive, e: FrameEstimate) -> FrameEstimate {
    match p {
        Primitive::Transpose => transposed_estimate(e),
        _ => e,
    }
}

/// The estimate after the steps, one after another.
pub open spec fn steps_estimate(steps: Seq<OrientStep>, e: FrameEstimate) -> FrameEstimate
    decreases steps.len(),
{
    if steps.len() == 0 {
        e
    } else {
        steps_estimate(steps.drop_first(), step_estimate(steps[0], e))
    }
}

/// The estimate after the primitives, one after another.
pub open spec fn primitives_estimate(ps: Seq<Primitive>, e: FrameEstimate) -> FrameEstimate
    decreases ps.len(),
{
    if ps.len() == 0 {
        e
    } else {
        primitives_estimate(ps.drop_first(), primitive_estimate(ps[0], e))
    }
}

/// The estimate of the orientation node: an exact frame has its width and height exchanged for
/// flags 5 to 8 (those that turn the image a quarter); any other estimate is kept.
pub open spec fn spec_orientation_estimate(flag: i32, e: FrameEstimate) -> FrameEstimate {
    match e {
        FrameEstimate::Exact(info) => if 5 <= flag <= 8 { FrameEstimate::Exact(transposed_info(info)) } else { e },
        _ => e,
    }
}

/// The estimate of the orientation node, as `spec_orientation_estimate` describes it.
pub fn orientation_estimate(flag: i32, input: FrameEstimate) -> (r: FrameEstimate)
    ensures
        r == spec_orientation_estimate(flag, input),
{
    match input {
        FrameEstimate::Exact(info) => {
            if 5 <= flag && flag <= 8 {
                FrameEstimate::Exact(FrameInfo { w: info.h, h: info.w, fmt: info.fmt })
            } else {
                input
            }
        },
        _ => input,
    }
}

/// The orientation node estimates what its steps, applied one after another, come to, for every
/// estimate but an upper bound (which the steps transpose but the node keeps).
pub proof fn lemma_orientation_estimate_matches_steps(flag: i32, e: FrameEstimate)
    requires
        !(e is UpperBound),
    ensures
        steps_estimate(spec_orientation_steps(flag), e) == spec_orientation_estimate(flag, e),
{
    reveal_with_fuel(steps_estimate, 3);
    let steps = spec_orientation_steps(flag);
    if flag == 7 {
        assert(steps.drop_first() =~= seq![OrientStep::Transpose]);
        assert(steps.drop_first().drop_first() =~= Seq::<OrientStep>::empty());
    } else if 2 <= flag <= 8 {
        assert(steps.drop_first() =~= Seq::<OrientStep>::empty());
    }
}

/// Each step and the primitives it is replaced by come to the same estimate.
pub proof fn lemma_step_primitives_estimate(s: OrientStep, e: FrameEstimate)
    ensures
        primitives_estimate(spec_step_primitives(s), e) == step_estimate(s, e),
{
    reveal_with_fuel(primitives_estimate, 3);
    let ps = spec_step_primitives(s);
    if ps.len() == 2 {
        assert(ps.drop_first() =~= seq![ps[1]]);
        assert(ps.drop_first().drop_first() =~= Seq::<Primitive>::empty());
    } else {
        assert(ps.drop_first() =~= Seq::<Primitive>::empty());
    }
}

/// The image dimensions as decoded images report them once an EXIF orientation flag is taken
/// into account: flags 5 to 8 turn the image a quarter, so width and height are exchanged.
pub fn swap_dimensions_by_exif(exif_flag: Option<i32>, width: i32, height: i32) -> (r: (i32, i32))
    ensures
        (exif_flag matches Some(f) && 5 <= f <= 8) ==> r == (height, width),
        !(exif_flag matches Some(f) && 5 <= f <= 8) ==> r == (width, height),
{
    match exif_flag {
        Some(f) => if 5 <= f && f <= 8 { (height, width) } else { (width, height) },
        None => (width, height),
    }
}

/// Where a pixel lands after a primitive, given the image's width and height and the pixel's
/// column and row: a horizontal flip mirrors the column, a vertical flip mirrors the row, a
/// transposition exchanges columns with rows (and width with height).
pub open spec fn primitive_place(p: Primitive, t: (int, int, int, int)) -> (int, int, int, int) {
    let (w, h, x, y) = t;
    match p {
        Primitive::FlipH => (w, h, w - 1 - x, y),
        Primitive::FlipV => (w, h, x, h - 1 - y),
        Primitive::Transpose => (h, w, y, x),
    }
}

/// Where a pixel lands after the primitives, one after another.
pub open spec fn primitives_place(ps: Seq<Primitive>, t: (int, int, int, int)) -> (int, int, int, int)
    decreases ps.len(),
{
    if ps.len() == 0 {
        t
    } else {
        primitives_place(ps.drop_first(), primitive_place(ps[0], t))
    }
}

/// Where a pixel lands after the steps, one after another, each done as its primitives.
pub open spec fn steps_place(steps: Seq<OrientStep>, t: (int, int, int, int)) -> (int, int, int, int)
    decreases steps.len(),
{
    if steps.len() == 0 {
        t
    } else {
        steps_place(steps.drop_first(), primitives_place(spec_step_primitives(steps[0]), t))
    }
}

/// Where EXIF shows the pixel stored at column `x`, row `y` of a `w` by `h` image, with the
/// displayed width and height: tag 2 mirrors left and right, 3 turns the image half round, 4
/// mirrors top and bottom, 5 transposes, 6 turns it a quarter clockwise, 7 transposes across the
/// other diagonal, 8 turns it a quarter counter-clockwise; any other tag shows it as stored.
pub open spec fn exif_display_place(flag: i32, w: int, h: int, x: int, y: int) -> (int, int, int, int) {
    if flag == 2 {
        (w, h, w - 1 - x, y)
    } else if flag == 3 {
        (w, h, w - 1 - x, h - 1 - y)
    } else if flag == 4 {
        (w, h, x, h - 1 - y)
    } else if flag == 5 {
        (h, w, y, x)
    } else if flag == 6 {
        (h, w, h - 1 - y, x)
    } else if flag == 7 {
        (h, w, h - 1 - y, w - 1 - x)
    } else if flag == 8 {
        (h, w, y, w - 1 - x)
    } else {
        (w, h, x, y)
    }
}

/// The primitives of a step, done one after another, place every pixel where the step's own
/// turn or mirror places it: a turn by 180 mirrors both ways; the turn named 90 takes the stored
/// column to the displayed row counted from the bottom; the turn named 270 takes the stored row
/// to the displayed column counted from the right.
pub proof fn lemma_step_primitives_place(s: OrientStep, w: int, h: int, x: int, y: int)
    ensures
        primitives_place(spec_step_primitives(s), (w, h, x, y)) == (match s {
            OrientStep::Rotate90 => (h, w, y, w - 1 - x),
            OrientStep::Rotate180 => (w, h, w - 1 - x, h - 1 - y),
            OrientStep::Rotate270 => (h, w, h - 1 - y, x),
            OrientStep::Transpose => (h, w, y, x),
            OrientStep::FlipV => (w, h, x, h - 1 - y),
            OrientStep::FlipH => (w, h, w - 1 - x, y),
        }),
{
    reveal_with_fuel(primitives_place, 3);
    let ps = spec_step_primitives(s);
    if ps.len() == 2 {
        assert(ps.drop_first() =~= seq![ps[1]]);
        assert(ps.drop_first().drop_first() =~= Seq::<Primitive>::empty());
    } else {
        assert(ps.drop_first() =~= Seq::<Primitive>::empty());
    }
}

/// The steps chosen for an EXIF orientation tag, done one after another as their primitives,
/// show every stored pixel exactly where the EXIF standard displays it, at the displayed width
/// and height: the steps undo the orientation the image was stored in.
pub proof fn lemma_orientation_steps_display_as_exif(flag: i32, w: int, h: int, x: int, y: int)
    ensures
        steps_place(spec_orientation_steps(flag), (w, h, x, y)) == exif_display_place(flag, w, h, x, y),
{
    reveal_with_fuel(steps_place, 3);
    let steps = spec_orientation_steps(flag);
    if flag == 7 {
        assert(steps.drop_first() =~= seq![OrientStep::Transpose]);
        assert(steps.drop_first().drop_first() =~= Seq::<OrientStep>::empty());
        lemma_step_primitives_place(OrientStep::Rotate180, w, h, x, y);
        lemma_step_primitives_place(OrientStep::Transpose, w, h, w - 1 - x, h - 1 - y);
    } else if 2 <= flag <= 8 {
        assert(steps.drop_first() =~= Seq::<OrientStep>::empty());
        lemma_step_primitives_place(steps[0], w, h, x, y);
    }
}

} // verus!
