use vstd::prelude::*;

use crate::scalar::{binary32_add, binary32_from_binary64, Scalar, Scalar32, ZERO_BITS};

verus! {

/// A point of a canvas path: x and y.
pub type Point = [Scalar; 2];

/// One step of drawing on a canvas.
#[derive(Debug, Clone)]
pub enum ContextAction {
    MoveTo(Point),
    LineTo(Point),
    QuadraticBezierTo { ctrl: Point, to: Point },
    CubicBezierTo { ctrl1: Point, ctrl2: Point, to: Point },
    Fill,
    Stroke,
    Close,
}

/// A point of a built path: x and y as binary32 numbers.
pub type Point32 = [Scalar32; 2];

/// One call on a path builder.
#[derive(Debug, Clone, Copy)]
pub enum PathStep {
    Begin(Point32),
    LineTo(Point32),
    QuadraticBezierTo(Point32, Point32),
    CubicBezierTo(Point32, Point32, Point32),
    End(bool),
    Close,
}

/// `p` moved by `offset`: each coordinate narrowed to binary32, then summed
/// in binary32.
pub open spec fn offset_point(p: Point, offset: Point) -> Point32 {
    [
        Scalar32 {
            bits: binary32_add(binary32_from_binary64(p[0].bits), binary32_from_binary64(offset[0].bits)),
        },
        Scalar32 {
            bits: binary32_add(binary32_from_binary64(p[1].bits), binary32_from_binary64(offset[1].bits)),
        },
    ]
}

/// The origin moved by `offset`.
pub open spec fn offset_origin(offset: Point) -> Point32 {
    offset_point([Scalar { bits: ZERO_BITS }, Scalar { bits: ZERO_BITS }], offset)
}

/// The origin in binary32, unmoved.
pub open spec fn origin32() -> Point32 {
    [Scalar32 { bits: 0 }, Scalar32 { bits: 0 }]
}

/// The state of a conversion to paths: the paths built so far (each the calls
/// made on its builder), the calls on the current builder, and whether a
/// path was begun.
pub type PathsState = (Seq<Seq<PathStep>>, Seq<PathStep>, bool);

/// The state after one more action.
pub open spec fn path_step(state: PathsState, action: ContextAction, offset: Point) -> PathsState {
    let (paths, current, begun) = state;
    match action {
        ContextAction::MoveTo(p) => if !begun {
            (paths, current.push(PathStep::Begin(offset_point(p, offset))), true)
        } else {
            (paths.push(current), seq![PathStep::Begin(offset_point(p, offset))], true)
        },
        ContextAction::LineTo(p) => if !begun {
            (
                paths,
                current.push(PathStep::Begin(offset_origin(offset))).push(
                    PathStep::LineTo(offset_point(p, offset)),
                ),
                true,
            )
        } else {
            (paths, current.push(PathStep::LineTo(offset_point(p, offset))), true)
        },
        ContextAction::QuadraticBezierTo { ctrl, to } => {
            let step = PathStep::QuadraticBezierTo(offset_point(ctrl, offset), offset_point(to, offset));
            if !begun {
                (paths, current.push(PathStep::Begin(offset_origin(offset))).push(step), true)
            } else {
                (paths, current.push(step), true)
            }
        },
        ContextAction::CubicBezierTo { ctrl1, ctrl2, to } => {
            let step = PathStep::CubicBezierTo(
                offset_point(ctrl1, offset),
                offset_point(ctrl2, offset),
                offset_point(to, offset),
            );
            if !begun {
                (paths, current.push(PathStep::Begin(origin32())).push(step), true)
            } else {
                (paths, current.push(step), true)
            }
        },
        ContextAction::Fill => if !begun {
            state
        } else {
            (paths.push(current), Seq::empty(), true)
        },
        ContextAction::Stroke => if !begun {
            state
        } else {
            (paths.push(current.push(PathStep::End(false))), Seq::empty(), true)
        },
        ContextAction::Close => if !begun {
            state
        } else {
            (paths, current.push(PathStep::Close), true)
        },
    }
}

/// The state after the actions, from no paths and no builder begun.
pub open spec fn paths_state(actions: Seq<ContextAction>, offset: Point) -> PathsState
    decreases actions.len(),
{
    if actions.len() == 0 {
        (Seq::empty(), Seq::empty(), false)
    } else {
        path_step(paths_state(actions.drop_last(), offset), actions.last(), offset)
    }
}

/// The paths that the actions make: those built on the way, and the current
/// one ended and built where a path was begun.
pub open spec fn paths_of(actions: Seq<ContextAction>, offset: Point) -> Seq<Seq<PathStep>> {
    let (paths, current, begun) = paths_state(actions, offset);
    if begun {
        paths.push(current.push(PathStep::End(false)))
    } else {
        paths
    }
}

fn offset_point_exec(p: Point, offset: Point) -> (r: Point32)
    ensures
        r == offset_point(p, offset),
{
    [p[0].narrow().add(offset[0].narrow()), p[1].narrow().add(offset[1].narrow())]
}

/// A drawing context of a canvas: the steps recorded so far.
///
/// The drawing calls of the canvas interface are accepted and do not record
/// anything yet: each leaves the context as it was.
#[derive(Debug, Clone)]
pub struct Context {
    pub generator: Vec<ContextAction>,
}

impl Context {
    pub fn set_line_width(&mut self)
        ensures
            *final(self) == *old(self),
    {
    }

    pub fn set_line_join(&mut self)
        ensures
            *final(self) == *old(self),
    {
    }

    pub fn set_line_cap(&mut self)
        ensures
            *final(self) == *old(self),
    {
    }

    pub fn set_miter_limit(&mut self)
        ensures
            *final(self) == *old(self),
    {
    }

    pub fn set_fill_style(&mut self)
        ensures
            *final(self) == *old(self),
    {
    }

    pub fn set_stroke_style(&mut self)
        ensures
            *final(self) == *old(self),
    {
    }

    pub fn rect(&mut self)
        ensures
            *final(self) == *old(self),
    {
    }

    pub fn fill_rect(&mut self)
        ensures
            *final(self) == *old(self),
    {
    }

    pub fn stroke_rect(&mut self)
        ensures
            *final(self) == *old(self),
    {
    }

    pub fn fill(&mut self)
        ensures
            *final(self) == *old(self),
    {
    }

    pub fn stroke(&mut self)
        ensures
            *final(self) == *old(self),
    {
    }

    pub fn begin_path(&mut self)
        ensures
            *final(self) == *old(self),
    {
    }

    pub fn move_to(&mut self)
        ensures
            *final(self) == *old(self),
    {
    }

    pub fn close_path(&mut self)
        ensures
            *final(self) == *old(self),
    {
    }

    pub fn line_to(&mut self)
        ensures
            *final(self) == *old(self),
    {
    }

    pub fn quadratic_curve_to(&mut self)
        ensures
            *final(self) == *old(self),
    {
    }

    pub fn bezier_curve_to(&mut self)
        ensures
            *final(self) == *old(self),
    {
    }

    pub fn arc(&mut self)
        ensures
            *final(self) == *old(self),
    {
    }

    pub fn arc_to(&mut self)
        ensures
            *final(self) == *old(self),
    {
    }

    /// The paths that the recorded steps draw, moved by `offset`, each as the
    /// calls to make on a path builder: a move starts a path (building the one
    /// begun, if any); lines and curves continue it, starting one at the origin
    /// where none was begun; a fill builds it, a stroke ends and builds it, a
    /// close closes it; at the end a begun path is ended and built.
    pub fn to_paths(&self, offset: Point) -> (r: Vec<Vec<PathStep>>)
        ensures
            r@.map_values(|v: Vec<PathStep>| v@) == paths_of(self.generator@, offset),
    {
        let mut paths: Vec<Vec<PathStep>> = Vec::new();
        let mut current_builder: Vec<PathStep> = Vec::new();
        let mut current_builder_begun = false;
        let zero = Scalar::zero();
        let mut i: usize = 0;
        while i < self.generator.len()
            invariant
                i <= self.generator@.len(),
                zero.bits == ZERO_BITS,
                paths_state(self.generator@.take(i as int), offset) == (
                    paths@.map_values(|v: Vec<PathStep>| v@),
                    current_builder@,
                    current_builder_begun,
                ),
            decreases self.generator@.len() - i,
        {
            proof {
                assert(self.generator@.take(i + 1).drop_last() == self.generator@.take(i as int));
            }
            let ghost paths0 = paths@;
            let ghost current0 = current_builder@;
            match &self.generator[i] {
                ContextAction::MoveTo(p) => {
                    if !current_builder_begun {
                        current_builder.push(PathStep::Begin(offset_point_exec(*p, offset)));
                        current_builder_begun = true;
                    } else {
                        paths.push(current_builder);
                        current_builder = Vec::new();
                        current_builder.push(PathStep::Begin(offset_point_exec(*p, offset)));
                    }
                },
                ContextAction::LineTo(p) => {
                    if !current_builder_begun {
                        current_builder.push(PathStep::Begin(offset_point_exec([zero, zero], offset)));
                        current_builder_begun = true;
                        current_builder.push(PathStep::LineTo(offset_point_exec(*p, offset)));
                    } else {
                        current_builder.push(PathStep::LineTo(offset_point_exec(*p, offset)));
                    }
                },
                ContextAction::QuadraticBezierTo { ctrl, to } => {
                    if !current_builder_begun {
                        current_builder.push(PathStep::Begin(offset_point_exec([zero, zero], offset)));
                        current_builder_begun = true;
                    }
                    current_builder.push(
                        PathStep::QuadraticBezierTo(
                            offset_point_exec(*ctrl, offset),
                            offset_point_exec(*to, offset),
                        ),
                    );
                },
                ContextAction::CubicBezierTo { ctrl1, ctrl2, to } => {
                    if !current_builder_begun {
                        current_builder.push(
                            PathStep::Begin([Scalar32::from_bits(0), Scalar32::from_bits(0)]),
                        );
                        current_builder_begun = true;
                    }
                    current_builder.push(
                        PathStep::CubicBezierTo(
                            offset_point_exec(*ctrl1, offset),
                            offset_point_exec(*ctrl2, offset),
                            offset_point_exec(*to, offset),
                        ),
                    );
                },
                ContextAction::Fill => {
                    if current_builder_begun {
                        paths.push(current_builder);
                        current_builder = Vec::new();
                    }
                },
                ContextAction::Stroke => {
                    if current_builder_begun {
                        current_builder.push(PathStep::End(false));
                        paths.push(current_builder);
                        current_builder = Vec::new();
                    }
                },
                ContextAction::Close => {
                    if current_builder_begun {
                        current_builder.push(PathStep::Close);
                    }
                },
            }
            proof {
                assert(paths@.map_values(|v: Vec<PathStep>| v@) =~= path_step(
                    (paths0.map_values(|v: Vec<PathStep>| v@), current0, paths_state(self.generator@.take(i as int), offset).2),
                    self.generator@[i as int],
                    offset,
                ).0);
            }
            i = i + 1;
        }
        proof {
            assert(self.generator@.take(self.generator@.len() as int) == self.generator@);
        }
        if current_builder_begun {
            current_builder.push(PathStep::End(false));
            paths.push(current_builder);
        }
        proof {
            assert(paths@.map_values(|v: Vec<PathStep>| v@) =~= paths_of(self.generator@, offset));
        }
        paths
    }
}

} // verus!
