use crate::irobot::root::root_robot::{
    drive_arc_payload, drive_distance_payload, rotate_angle_payload, set_marker_position_payload,
    MarkerPosition, Request, RootMessageKey, RootRobot, WriteType,
};
use crate::utils::pointutils::{is_same_place, same_place, Point};
use vstd::prelude::*;
use vstd::std_specs::cmp::PartialEqSpec;

verus! {

/// Where the robot is taken to be: a place in millimetres and a heading in
/// degrees, 0 along the y axis and growing towards the x axis.
#[derive(Debug, PartialEq)]
pub struct Pose<S> {
    pub x_coord: S,
    pub y_coord: S,
    pub heading: S,
}

impl<S> Pose<S> {
    /// The place of the pose.
    pub open spec fn position(self) -> Point<S> {
        Point { x_coord: self.x_coord, y_coord: self.y_coord }
    }

    /// This pose turned to `heading`.
    pub open spec fn turned_to(self, heading: S) -> Pose<S> {
        Pose { x_coord: self.x_coord, y_coord: self.y_coord, heading }
    }

    /// The pose at `place` with `heading`.
    pub open spec fn at(place: Point<S>, heading: S) -> Pose<S> {
        Pose { x_coord: place.x_coord, y_coord: place.y_coord, heading }
    }
}

/// One thing that the orchestrator asks of the robot. Angles are in tenths
/// of a degree, lengths in millimetres.
#[derive(Debug, Clone, Copy, PartialEq, Eq, Structural)]
pub enum Primitive {
    RotateAngle { angle_deci_degrees: i32 },
    DriveDistance { distance_mm: i32 },
    DriveArc { angle: i32, radius: i32 },
    SetMarkerPosition { position: MarkerPosition },
}

impl Primitive {
    /// The bytes of the command that asks this of the robot.
    pub open spec fn payload(self) -> Seq<u8> {
        match self {
            Primitive::RotateAngle { angle_deci_degrees } => rotate_angle_payload(
                angle_deci_degrees,
            ),
            Primitive::DriveDistance { distance_mm } => drive_distance_payload(distance_mm),
            Primitive::DriveArc { angle, radius } => drive_arc_payload(angle, radius),
            Primitive::SetMarkerPosition { position } => set_marker_position_payload(position),
        }
    }

    /// The key of the reply that tells that the robot has done it.
    pub open spec fn reply(self) -> RootMessageKey {
        match self {
            Primitive::RotateAngle { .. } => RootMessageKey { device: 0x01, command: 0x0C, id: 0x12 },
            Primitive::DriveDistance { .. } => RootMessageKey {
                device: 0x01,
                command: 0x08,
                id: 0x11,
            },
            Primitive::DriveArc { .. } => RootMessageKey { device: 0x01, command: 0x1B, id: 0x1B },
            Primitive::SetMarkerPosition { .. } => RootMessageKey {
                device: 0x02,
                command: 0x00,
                id: 0x13,
            },
        }
    }

    /// The request that asks this of the robot. Each is written with
    /// acknowledgement and answered when the robot has finished.
    pub fn request(&self) -> (request: Request)
        ensures
            request.holds(self.payload(), WriteType::WithResponse, Some(self.reply())),
            request.consistent(),
    {
        match *self {
            Primitive::RotateAngle { angle_deci_degrees } => RootRobot::rotate_angle(
                angle_deci_degrees,
            ),
            Primitive::DriveDistance { distance_mm } => RootRobot::drive_distance(distance_mm),
            Primitive::DriveArc { angle, radius } => RootRobot::drive_arc(angle, radius),
            Primitive::SetMarkerPosition { position } => RootRobot::set_marker_position(position),
        }
    }
}

/// One command to the robot, and the pose that holds once the robot has
/// confirmed it.
#[derive(Debug, PartialEq)]
pub struct Step<S> {
    pub command: Primitive,
    pub pose: Pose<S>,
}

/// One leg of a stroke, by the places of its points in the stroke.
#[derive(Debug, Clone, Copy, PartialEq, Eq, Structural)]
pub enum Leg {
    /// Straight to the point at `to`, drawing if the marker is down.
    Straight { to: usize, marker_down: bool },
    /// Along the circle through the points at `start`, `start + 1` and
    /// `start + 2`, drawing: as far as the second of them, or as far as the
    /// third if the arc is the last of its stroke.
    Arc { start: usize, is_final: bool },
}

/// What was measured for a straight move from the current pose.
#[derive(Debug, PartialEq)]
pub struct StraightMeasure<S> {
    /// The heading from the current place to the destination.
    pub bearing: S,
    /// The rotation that brings the robot from its current heading to the
    /// bearing by the shorter way, in tenths of a degree.
    pub turn: i32,
    /// The whole millimetres to drive, or `None` if the distance is zero.
    pub distance: Option<i32>,
}

/// What was measured for an arc from the current pose.
#[derive(Debug, PartialEq)]
pub struct ArcMeasure<S> {
    /// The heading along the tangent where the arc starts.
    pub entry_heading: S,
    /// The rotation that brings the robot from its current heading to the
    /// entry heading by the shorter way, in tenths of a degree.
    pub turn: i32,
    /// The signed angle to sweep, in tenths of a degree.
    pub sweep: i32,
    /// The radius of the circle, in millimetres.
    pub radius: i32,
    /// The heading along the tangent where the arc ends.
    pub exit_heading: S,
}

/// The legs of a stroke of `len` points: nothing for no point; a drawn line
/// to a single point; for two points a move to the first and a drawn line
/// to the second; for more a move to the first, then one arc for every
/// three points in a row, the last of them running to the end of the stroke.
pub open spec fn stroke_legs(len: nat) -> Seq<Leg> {
    if len == 0 {
        Seq::empty()
    } else if len == 1 {
        seq![Leg::Straight { to: 0usize, marker_down: true }]
    } else if len == 2 {
        seq![
            Leg::Straight { to: 0usize, marker_down: false },
            Leg::Straight { to: 1usize, marker_down: true },
        ]
    } else {
        seq![Leg::Straight { to: 0usize, marker_down: false }] + Seq::new(
            (len - 2) as nat,
            |window: int| Leg::Arc { start: window as usize, is_final: window + 3 == len },
        )
    }
}

/// The commands of a straight move that was found necessary: the turn, then
/// the drive if there is a distance to cover, with the marker lowered
/// before it and lifted after it if the move draws.
pub open spec fn straight_commands(turn: i32, distance: Option<i32>, marker_down: bool) -> Seq<
    Primitive,
> {
    let rotate = seq![Primitive::RotateAngle { angle_deci_degrees: turn }];
    match distance {
        None => rotate,
        Some(distance_mm) => if marker_down {
            rotate + seq![
                Primitive::SetMarkerPosition { position: MarkerPosition::MarkerDown },
                Primitive::DriveDistance { distance_mm },
                Primitive::SetMarkerPosition { position: MarkerPosition::NothingDown },
            ]
        } else {
            rotate + seq![Primitive::DriveDistance { distance_mm }]
        },
    }
}

/// The commands of an arc: the turn onto the tangent, then the arc with the
/// marker down.
pub open spec fn arc_commands(turn: i32, sweep: i32, radius: i32) -> Seq<Primitive> {
    seq![
        Primitive::RotateAngle { angle_deci_degrees: turn },
        Primitive::SetMarkerPosition { position: MarkerPosition::MarkerDown },
        Primitive::DriveArc { angle: sweep, radius },
        Primitive::SetMarkerPosition { position: MarkerPosition::NothingDown },
    ]
}

/// The steps of one leg: its commands in order, the last of them leading to
/// the pose `after` the leg, each of the others to the pose `during` it.
pub open spec fn leg_steps<S>(commands: Seq<Primitive>, during: Pose<S>, after: Pose<S>) -> Seq<
    Step<S>,
> {
    Seq::new(
        commands.len(),
        |at: int|
            Step {
                command: commands[at],
                pose: if at + 1 == commands.len() {
                    after
                } else {
                    during
                },
            },
    )
}

/// The steps of a straight move from `pose` to `destination`: none if the
/// robot is there already; else the robot turns to the bearing, and is at
/// the destination when the last command is confirmed.
pub open spec fn straight_steps<S: PartialEq>(
    pose: Pose<S>,
    destination: Point<S>,
    measure: StraightMeasure<S>,
    marker_down: bool,
) -> Seq<Step<S>> {
    if same_place(destination, pose.position()) {
        Seq::empty()
    } else {
        leg_steps(
            straight_commands(measure.turn, measure.distance, marker_down),
            pose.turned_to(measure.bearing),
            Pose::at(destination, measure.bearing),
        )
    }
}

/// The steps of an arc from `pose` that ends at `destination`: the robot
/// turns onto the tangent, and is at the destination, on the tangent there,
/// when the last command is confirmed.
pub open spec fn arc_steps<S>(pose: Pose<S>, destination: Point<S>, measure: ArcMeasure<S>) -> Seq<
    Step<S>,
> {
    leg_steps(
        arc_commands(measure.turn, measure.sweep, measure.radius),
        pose.turned_to(measure.entry_heading),
        Pose::at(destination, measure.exit_heading),
    )
}

/// The pose that holds when all of `steps` have been confirmed, starting
/// from `pose`.
pub open spec fn pose_after<S>(pose: Pose<S>, steps: Seq<Step<S>>) -> Pose<S> {
    if steps.len() == 0 {
        pose
    } else {
        steps.last().pose
    }
}

/// Pairs the commands of a leg with the poses that they lead to.
fn stage<S: Copy>(commands: Vec<Primitive>, during: Pose<S>, after: Pose<S>) -> (steps: Vec<
    Step<S>,
>)
    ensures
        steps@ == leg_steps(commands@, during, after),
{
    let mut steps: Vec<Step<S>> = Vec::new();
    let mut at: usize = 0;
    while at < commands.len()
        invariant
            at <= commands@.len(),
            steps@ == leg_steps(commands@, during, after).subrange(0, at as int),
        decreases commands@.len() - at,
    {
        let reached = if at + 1 == commands.len() {
            &after
        } else {
            &during
        };
        steps.push(
            Step {
                command: commands[at],
                pose: Pose {
                    x_coord: reached.x_coord,
                    y_coord: reached.y_coord,
                    heading: reached.heading,
                },
            },
        );
        at += 1;
    }
    steps
}

/// Lists the legs of a stroke of `len` points.
pub fn plan_stroke(len: usize) -> (legs: Vec<Leg>)
    ensures
        legs@ == stroke_legs(len as nat),
{
    let mut legs: Vec<Leg> = Vec::new();
    if len == 1 {
        legs.push(Leg::Straight { to: 0, marker_down: true });
    } else if len == 2 {
        legs.push(Leg::Straight { to: 0, marker_down: false });
        legs.push(Leg::Straight { to: 1, marker_down: true });
    } else if len > 2 {
        legs.push(Leg::Straight { to: 0, marker_down: false });
        let mut counter: usize = 0;
        while counter + 2 < len
            invariant
                len > 2,
                counter <= len - 2,
                legs@ == stroke_legs(len as nat).subrange(0, counter + 1),
            decreases len - counter,
        {
            legs.push(Leg::Arc { start: counter, is_final: counter + 3 == len });
            counter += 1;
        }
    }
    legs
}

/// Keeps track of the robot's pose while a drawing is carried out, and says
/// which commands each part of the drawing takes.
///
/// It computes nothing with coordinates or angles: what has to be measured
/// for a leg comes from the caller, who can ask for the pose to measure
/// from. The pose changes only when a step is confirmed, so that it stays
/// at the last pose that the robot is known to have reached if a command
/// fails.
pub struct LinearOrchestrator<S> {
    current_x_coord: S,
    current_y_coord: S,
    current_heading: S, // in degrees
}

impl<S: Copy> LinearOrchestrator<S> {
    /// The pose that the robot is taken to have.
    pub closed spec fn pose(&self) -> Pose<S> {
        Pose {
            x_coord: self.current_x_coord,
            y_coord: self.current_y_coord,
            heading: self.current_heading,
        }
    }

    /// An orchestrator for a robot that stands at the origin and looks
    /// along the y axis: each part of its pose is what the scalar type
    /// gives by default, which is zero for every type of number.
    pub fn new() -> (orchestrator: LinearOrchestrator<S>) where S: Default
        ensures
            call_ensures(S::default, (), orchestrator.pose().x_coord),
            call_ensures(S::default, (), orchestrator.pose().y_coord),
            call_ensures(S::default, (), orchestrator.pose().heading),
    {
        LinearOrchestrator {
            current_x_coord: S::default(),
            current_y_coord: S::default(),
            current_heading: S::default(),
        }
    }

    /// The pose that the robot is taken to have.
    pub fn current_pose(&self) -> (pose: Pose<S>)
        ensures
            pose == self.pose(),
    {
        Pose {
            x_coord: self.current_x_coord,
            y_coord: self.current_y_coord,
            heading: self.current_heading,
        }
    }

    /// Records that the robot has confirmed the command of `step`.
    pub fn confirm(&mut self, step: &Step<S>)
        ensures
            final(self).pose() == step.pose,
    {
        self.current_x_coord = step.pose.x_coord;
        self.current_y_coord = step.pose.y_coord;
        self.current_heading = step.pose.heading;
    }

    /// The step that turns the robot to `new_heading`: a rotation by
    /// `turn` tenths of a degree, after which the heading is taken to be
    /// `new_heading` itself, whatever the rounding of the turn left over.
    pub fn rotate_to_new_heading(&self, new_heading: S, turn: i32) -> (step: Step<S>)
        ensures
            step.command == (Primitive::RotateAngle { angle_deci_degrees: turn }),
            step.pose == self.pose().turned_to(new_heading),
    {
        Step {
            command: Primitive::RotateAngle { angle_deci_degrees: turn },
            pose: Pose {
                x_coord: self.current_x_coord,
                y_coord: self.current_y_coord,
                heading: new_heading,
            },
        }
    }

    /// The steps that take the robot straight to `destination`, drawing on
    /// the way if `marker_down`.
    ///
    /// There are none if the robot is at the destination already. Else the
    /// robot turns to the bearing, then drives if there is a distance to
    /// cover; the marker is lowered before the drive and lifted after it.
    /// The robot is taken to be at the destination once the last of the
    /// steps is confirmed, whether it had to drive or not.
    ///
    /// Whether the robot is at the destination is for the scalar's `==` to
    /// say. Where `==` is no function of the values compared, the steps are
    /// still either none or those of the whole move.
    pub fn move_straight_line(
        &self,
        destination: &Point<S>,
        measure: &StraightMeasure<S>,
        marker_down: bool,
    ) -> (steps: Vec<Step<S>>) where S: PartialEq
        ensures
            S::obeys_eq_spec() ==> steps@ == straight_steps(
                self.pose(),
                *destination,
                *measure,
                marker_down,
            ),
            steps@.len() == 0 || steps@ == leg_steps(
                straight_commands(measure.turn, measure.distance, marker_down),
                self.pose().turned_to(measure.bearing),
                Pose::at(*destination, measure.bearing),
            ),
    {
        let here = Point { x_coord: self.current_x_coord, y_coord: self.current_y_coord };
        if is_same_place(destination, &here) {
            // Already there no work needed
            return Vec::new();
        }
        let mut commands: Vec<Primitive> = Vec::new();
        commands.push(Primitive::RotateAngle { angle_deci_degrees: measure.turn });
        match measure.distance {
            Some(distance_mm) => {
                if marker_down {
                    commands.push(
                        Primitive::SetMarkerPosition { position: MarkerPosition::MarkerDown },
                    );
                }
                commands.push(Primitive::DriveDistance { distance_mm });
                if marker_down {
                    commands.push(
                        Primitive::SetMarkerPosition { position: MarkerPosition::NothingDown },
                    );
                }
            },
            None => {},
        }
        assert(commands@ =~= straight_commands(measure.turn, measure.distance, marker_down));
        stage(
            commands,
            Pose {
                x_coord: self.current_x_coord,
                y_coord: self.current_y_coord,
                heading: measure.bearing,
            },
            Pose {
                x_coord: destination.x_coord,
                y_coord: destination.y_coord,
                heading: measure.bearing,
            },
        )
    }

    /// The steps that draw an arc on the circle through the robot's place,
    /// `mid` and `end`: as far as `end` if the arc is the last of its
    /// stroke, else as far as `mid`.
    ///
    /// The robot turns onto the tangent, lowers the marker, drives the arc
    /// and lifts the marker. It is taken to be where the arc ends, heading
    /// along the tangent there, once the last of the steps is confirmed.
    pub fn draw_arc(&self, mid: &Point<S>, end: &Point<S>, is_final: bool, measure: &ArcMeasure<S>) -> (steps:
        Vec<Step<S>>)
        ensures
            steps@ == arc_steps(
                self.pose(),
                if is_final {
                    *end
                } else {
                    *mid
                },
                *measure,
            ),
    {
        let destination = if is_final {
            end
        } else {
            mid
        };
        let mut commands: Vec<Primitive> = Vec::new();
        commands.push(Primitive::RotateAngle { angle_deci_degrees: measure.turn });
        commands.push(Primitive::SetMarkerPosition { position: MarkerPosition::MarkerDown });
        commands.push(Primitive::DriveArc { angle: measure.sweep, radius: measure.radius });
        commands.push(Primitive::SetMarkerPosition { position: MarkerPosition::NothingDown });
        assert(commands@ =~= arc_commands(measure.turn, measure.sweep, measure.radius));
        stage(
            commands,
            Pose {
                x_coord: self.current_x_coord,
                y_coord: self.current_y_coord,
                heading: measure.entry_heading,
            },
            Pose {
                x_coord: destination.x_coord,
                y_coord: destination.y_coord,
                heading: measure.exit_heading,
            },
        )
    }

    /// Lists the legs of a drawing, stroke by stroke, in the order in
    /// which they are to be carried out.
    pub fn orchestrate(points: &Vec<Vec<Point<S>>>) -> (plan: Vec<Vec<Leg>>)
        ensures
            plan@.len() == points@.len(),
            forall|line: int|
                0 <= line < points@.len() ==> (#[trigger] plan@[line])@ == stroke_legs(
                    points@[line]@.len(),
                ),
    {
        let mut plan: Vec<Vec<Leg>> = Vec::new();
        let mut line: usize = 0;
        while line < points.len()
            invariant
                line <= points@.len(),
                plan@.len() == line,
                forall|done: int|
                    0 <= done < line ==> (#[trigger] plan@[done])@ == stroke_legs(
                        points@[done]@.len(),
                    ),
            decreases points@.len() - line,
        {
            plan.push(plan_stroke(points[line].len()));
            line += 1;
        }
        plan
    }
}

/// A stroke that is one point, the point where the robot stands, asks
/// nothing of the robot and leaves the pose as it is: its one leg is a
/// drawn line to that point, and a line to where the robot stands has no
/// steps.
pub proof fn lemma_stroke_to_current_position_is_idle<S: PartialEq>(
    pose: Pose<S>,
    point: Point<S>,
    measure: StraightMeasure<S>,
)
    requires
        same_place(point, pose.position()),
    ensures
        stroke_legs(1) == seq![Leg::Straight { to: 0usize, marker_down: true }],
        straight_steps(pose, point, measure, true) == Seq::<Step<S>>::empty(),
        pose_after(pose, straight_steps(pose, point, measure, true)) == pose,
{
}

/// A straight move that is made ends at the destination, heading along the
/// bearing, and an arc ends at its destination, heading along the tangent
/// there, whatever the commands on the way.
pub proof fn lemma_leg_ends_at_destination<S: PartialEq>(
    pose: Pose<S>,
    destination: Point<S>,
    straight: StraightMeasure<S>,
    arc: ArcMeasure<S>,
    marker_down: bool,
)
    ensures
        !same_place(destination, pose.position()) ==> pose_after(
            pose,
            straight_steps(pose, destination, straight, marker_down),
        ) == Pose::at(destination, straight.bearing),
        pose_after(pose, arc_steps(pose, destination, arc)) == Pose::at(
            destination,
            arc.exit_heading,
        ),
{
}

} // verus!
