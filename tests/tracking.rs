use fiducial_pose::correspondence::Detection;
use fiducial_pose::error::TrackingError;
use fiducial_pose::registry::corners_for;
use fiducial_pose::tracking::{Action, Event, SolveError, Stage, TrackingController};

type Ev = Event<(i32, i32), [i32; 3]>;

fn marker(id: i32) -> Detection<(i32, i32)> {
    Detection { id, corners: vec![(1, 1), (2, 1), (2, 2), (1, 2)] }
}

fn run(t: &mut TrackingController<[i32; 3]>, events: Vec<Ev>) -> Vec<Action<(i32, i32)>> {
    let mut out = Vec::new();
    for e in events {
        assert!(t.expects(&e));
        out.push(t.step(e));
    }
    out
}

fn good_frame(pose: [i32; 3]) -> Vec<Ev> {
    vec![
        Event::FrameAcquired { empty: false },
        Event::MarkersDetected(vec![marker(1)]),
        Event::PoseSolved(Ok(true)),
        Event::PoseConverted(Some(pose)),
    ]
}

fn is_abandon(a: &Action<(i32, i32)>, e: TrackingError) -> bool {
    matches!(a, Action::Abandon(x) if *x == e)
}

#[test]
fn new_controller_waits_for_frame() {
    let t: TrackingController<[i32; 3]> = TrackingController::new([0, 0, 0]);
    assert_eq!(t.stage(), Stage::AcquireFrame);
    assert_eq!(*t.transform(), [0, 0, 0]);
}

#[test]
fn good_frame_publishes() {
    let mut t = TrackingController::new([0, 0, 0]);
    let acts = run(&mut t, good_frame([4, 5, 6]));
    assert!(matches!(acts[0], Action::Detect));
    match &acts[1] {
        Action::Solve(c) => {
            assert_eq!(c.world, corners_for(1).unwrap().to_vec());
            assert_eq!(c.image, marker(1).corners);
        }
        _ => panic!("expected a solve"),
    }
    assert!(matches!(acts[2], Action::Convert));
    assert!(matches!(acts[3], Action::Publish));
    assert_eq!(*t.transform(), [4, 5, 6]);
    assert_eq!(t.stage(), Stage::AcquireFrame);
}

#[test]
fn empty_frame_keeps_transform() {
    let mut t = TrackingController::new([1, 2, 3]);
    let acts = run(&mut t, vec![Event::FrameAcquired { empty: true }]);
    assert!(is_abandon(&acts[0], TrackingError::AcquisitionEmpty));
    assert_eq!(*t.transform(), [1, 2, 3]);
    assert_eq!(t.stage(), Stage::AcquireFrame);
}

#[test]
fn zero_detections_keep_transform() {
    let mut t = TrackingController::new([0, 0, 0]);
    run(&mut t, good_frame([7, 8, 9]));
    let acts = run(&mut t, vec![Event::FrameAcquired { empty: false }, Event::MarkersDetected(vec![])]);
    assert!(is_abandon(&acts[1], TrackingError::NoTargets));
    assert_eq!(*t.transform(), [7, 8, 9]);
    assert_eq!(t.stage(), Stage::AcquireFrame);
}

#[test]
fn corner_count_mismatch_keeps_transform() {
    let mut t = TrackingController::new([0, 0, 0]);
    run(&mut t, good_frame([7, 8, 9]));
    let short = Detection { id: 2, corners: vec![(1, 1), (2, 2)] };
    let acts = run(
        &mut t,
        vec![Event::FrameAcquired { empty: false }, Event::MarkersDetected(vec![marker(1), short])],
    );
    assert!(is_abandon(&acts[1], TrackingError::CorrespondenceMismatch));
    assert_eq!(*t.transform(), [7, 8, 9]);
}

#[test]
fn solver_without_pose_keeps_transform() {
    for verdict in [Ok(false), Err(SolveError)] {
        let mut t = TrackingController::new([3, 3, 3]);
        let acts = run(
            &mut t,
            vec![
                Event::FrameAcquired { empty: false },
                Event::MarkersDetected(vec![marker(0)]),
                Event::PoseSolved(verdict),
            ],
        );
        assert!(is_abandon(&acts[2], TrackingError::SolveFailed));
        assert_eq!(*t.transform(), [3, 3, 3]);
        assert_eq!(t.stage(), Stage::AcquireFrame);
    }
}

#[test]
fn reflected_rotation_is_degenerate_and_keeps_transform() {
    let mut t = TrackingController::new([0, 0, 0]);
    run(&mut t, good_frame([7, 8, 9]));
    let acts = run(
        &mut t,
        vec![
            Event::FrameAcquired { empty: false },
            Event::MarkersDetected(vec![marker(1)]),
            Event::PoseSolved(Ok(true)),
            Event::PoseConverted(None),
        ],
    );
    assert!(is_abandon(&acts[3], TrackingError::DegeneratePose));
    assert_eq!(*t.transform(), [7, 8, 9]);
}

#[test]
fn same_inputs_twice_publish_same_transform() {
    let mut t = TrackingController::new([0, 0, 0]);
    run(&mut t, good_frame([2, 4, 6]));
    let first = *t.transform();
    run(&mut t, good_frame([2, 4, 6]));
    assert_eq!(*t.transform(), first);
    let mut u = TrackingController::new([9, 9, 9]);
    run(&mut u, good_frame([2, 4, 6]));
    assert_eq!(*u.transform(), first);
}

#[test]
fn controller_expects_only_current_stage() {
    let mut t: TrackingController<[i32; 3]> = TrackingController::new([0, 0, 0]);
    let solved: Ev = Event::PoseSolved(Ok(true));
    assert!(!t.expects(&solved));
    t.step::<(i32, i32)>(Event::FrameAcquired { empty: false });
    assert_eq!(t.stage(), Stage::Detect);
    assert!(!t.expects(&solved));
    assert!(t.expects(&Ev::MarkersDetected(vec![])));
}
