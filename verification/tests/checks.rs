use curveball::curve::bank::{self, BankError};
use curveball::curve::catenary::{self, CatenarySegmentsError};
use curveball::curve::curve_classic::{self, CurveClassicError};
use curveball::curve::curve_slope::{self, CurveSlopeError};
use curveball::curve::extrude::path::{self, Bezier, BezierError};
use curveball::curve::extrude::profile::{
    check_annulus, check_circle, check_circle_sector, Anchor9Point, AnnulusError, CircleError,
    CircleSectorError, ProfileError,
};
use curveball::curve::extrude::{
    check_compound_segments, ProfileOrientation, ProfilePlane, ExtrudeError,
};
use curveball::curve::rayto::{self, RaytoError};
use curveball::curve::serpentine::{self, SerpentineError, SerpentineOffsetMode};
use curveball::brush::{Side, SideGeom};
use curveball::curve::CurveError;
use glam::DVec2;

#[test]
fn segment_counts_have_inclusive_bounds() {
    assert_eq!(
        curve_classic::check_segments(0),
        Err(CurveClassicError::NotEnoughSegments { n: 0 })
    );
    assert_eq!(curve_classic::check_segments(1), Ok(()));
    assert_eq!(curve_classic::check_segments(4096), Ok(()));
    assert_eq!(
        curve_classic::check_segments(4097),
        Err(CurveClassicError::TooManySegments { n: 4097 })
    );
    assert_eq!(bank::check_segments(0), Err(BankError::NotEnoughSegments { n: 0 }));
    assert_eq!(bank::check_segments(4096), Ok(()));
    assert_eq!(bank::check_segments(5000), Err(BankError::TooManySegments { n: 5000 }));
    assert_eq!(rayto::check_segments(0), Err(RaytoError::NotEnoughSegments { n: 0 }));
    assert_eq!(rayto::check_segments(12), Ok(()));
    assert_eq!(rayto::check_segments(u32::MAX), Err(RaytoError::TooManySegments { n: u32::MAX }));
    assert_eq!(curve_slope::check_segments(0), Err(CurveSlopeError::NotEnoughSegments { n: 0 }));
    assert_eq!(curve_slope::check_segments(1), Ok(()));
    assert_eq!(
        curve_slope::check_segments(4097),
        Err(CurveSlopeError::TooManySegments { n: 4097 })
    );
    assert_eq!(
        curveball::curve::extrude::check_segments(0),
        Err(ExtrudeError::NotEnoughSegments { n: 0 })
    );
    assert_eq!(curveball::curve::extrude::check_segments(4096), Ok(()));
}

#[test]
fn segment_error_messages() {
    assert_eq!(
        CurveClassicError::NotEnoughSegments { n: 0 }.message(),
        "n = 0. Number of segments must be at least 1."
    );
    assert_eq!(
        CurveClassicError::TooManySegments { n: 4097 }.message(),
        "n = 4097. Number of segments must be no greater than 4096."
    );
    assert_eq!(
        BankError::TooManySegments { n: 10000 }.message(),
        "n = 10000. Number of segments must be no greater than 4096."
    );
    assert_eq!(
        RaytoError::NotEnoughSegments { n: 0 }.message(),
        "n = 0. Number of segments must be at least 1."
    );
    assert_eq!(
        CurveSlopeError::TooManySegments { n: 4294967295 }.message(),
        "n = 4294967295. Number of segments must be no greater than 4096."
    );
    assert_eq!(
        ExtrudeError::NotEnoughSegments { n: 0 }.message(),
        "n = 0. Number of segments must be at least 1."
    );
}

#[test]
fn curve_error_message_is_that_of_its_cause() {
    assert_eq!(
        CurveError::CurveClassicError(CurveClassicError::TooManySegments { n: 4097 }).message(),
        "n = 4097. Number of segments must be no greater than 4096."
    );
    assert_eq!(
        CurveError::SerpentineError(SerpentineError::TooTall).message(),
        "Serpentine curve height cannot be greater than its length."
    );
    assert_eq!(
        CurveError::ProfileError(ProfileError::CircleSectorError(CircleSectorError::Limit180))
            .message(),
        "The difference between the start and end angle must be no greater than 180 degrees."
    );
    assert_eq!(
        CurveError::ProfileError(ProfileError::AnnulusError(AnnulusError::NotEnoughPoints {
            n: 0
        }))
        .message(),
        "n = 0. Number of points must be at least 1."
    );
    assert_eq!(
        CurveError::ExtrudeError(ExtrudeError::TooManySegments { n: 4100 }).message(),
        "n = 4100. Number of segments must be no greater than 4096."
    );
}

#[test]
fn convex_hull_failure_message() {
    let e = chull::ErrorKind::Degenerated;
    let expected = format!("Failed to find convex hull: {}", e);
    assert_eq!(CurveError::ConvexHullFail(e).message(), expected);
    assert_ne!(expected, "Failed to find convex hull: ");
}

#[test]
fn serpentine_checks_in_order() {
    assert_eq!(
        serpentine::check(0, false, true),
        Err(SerpentineError::NotEnoughSegments { n_each: 0 })
    );
    assert_eq!(
        serpentine::check(2049, true, false),
        Err(SerpentineError::TooManySegments { n_each: 2049 })
    );
    assert_eq!(serpentine::check(2048, true, false), Ok(()));
    assert_eq!(serpentine::check(1, false, true), Err(SerpentineError::OrderedHeight));
    assert_eq!(serpentine::check(1, true, true), Err(SerpentineError::TooTall));
    assert_eq!(serpentine::check(1, true, false), Ok(()));
}

#[test]
fn serpentine_messages() {
    assert_eq!(
        SerpentineError::NotEnoughSegments { n_each: 0 }.message(),
        "n_each = 0. Number of segments in either side must be at least 1."
    );
    assert_eq!(
        SerpentineError::TooManySegments { n_each: 2049 }.message(),
        "n_each = 2049. Number of segments in either side must be no greater than 2048."
    );
    assert_eq!(
        SerpentineError::OrderedHeight.message(),
        "Ending height must be greater than the starting height."
    );
}

#[test]
fn serpentine_segments_each_rounds_up() {
    assert_eq!(serpentine::segments_each(0), 0);
    assert_eq!(serpentine::segments_each(1), 1);
    assert_eq!(serpentine::segments_each(2), 1);
    assert_eq!(serpentine::segments_each(7), 4);
    assert_eq!(serpentine::segments_each(24), 12);
    assert_eq!(serpentine::segments_each(u32::MAX), 2147483648);
}

#[test]
fn serpentine_offset_defaults_to_middle() {
    assert_eq!(SerpentineOffsetMode::default(), SerpentineOffsetMode::Middle);
}

#[test]
fn compound_segments() {
    assert_eq!(
        check_compound_segments(0, 5),
        Err(ExtrudeError::NotEnoughSegments { n: 0 })
    );
    assert_eq!(
        check_compound_segments(4, 0),
        Err(ExtrudeError::NotEnoughSegments { n: 0 })
    );
    assert_eq!(check_compound_segments(3, 2), Ok(6));
    assert_eq!(check_compound_segments(2, 2048), Ok(4096));
    assert_eq!(
        check_compound_segments(2, 2049),
        Err(ExtrudeError::TooManySegments { n: 4098 })
    );
}

#[test]
fn compound_segments_report_product_cut_to_32_bits() {
    let count: usize = (1usize << 32) + 5000;
    assert_eq!(
        check_compound_segments(count, 1),
        Err(ExtrudeError::TooManySegments { n: 5000 })
    );
}

#[test]
fn circle_profile_checks() {
    assert_eq!(check_circle(0), Err(CircleError::NotEnoughPoints { n: 0 }));
    assert_eq!(check_circle(1), Ok(()));
    assert_eq!(check_circle(4096), Ok(()));
    assert_eq!(check_circle(4097), Err(CircleError::TooManyPoints { n: 4097 }));
    assert_eq!(
        CircleError::TooManyPoints { n: 4097 }.message(),
        "n = 4097. Number of points must be no greater than 4096."
    );
}

#[test]
fn circle_sector_profile_checks_in_order() {
    assert_eq!(
        check_circle_sector(0, true, true),
        Err(CircleSectorError::NotEnoughPoints { n: 0 })
    );
    assert_eq!(
        check_circle_sector(4097, true, true),
        Err(CircleSectorError::TooManyPoints { n: 4097 })
    );
    assert_eq!(check_circle_sector(8, true, true), Err(CircleSectorError::OrderedAngle));
    assert_eq!(check_circle_sector(8, false, true), Err(CircleSectorError::Limit180));
    assert_eq!(check_circle_sector(8, false, false), Ok(()));
    assert_eq!(
        CircleSectorError::OrderedAngle.message(),
        "End angle must be greater than start angle."
    );
}

#[test]
fn annulus_profile_checks() {
    assert_eq!(check_annulus(0), Err(AnnulusError::NotEnoughPoints { n: 0 }));
    assert_eq!(check_annulus(32), Ok(()));
    assert_eq!(check_annulus(4097), Err(AnnulusError::TooManyPoints { n: 4097 }));
    assert_eq!(
        ProfileError::AnnulusError(AnnulusError::TooManyPoints { n: 4097 }).message(),
        "n = 4097. Number of points must be no greater than 4096."
    );
}

#[test]
fn rectangle_anchor_shifts() {
    assert_eq!(Anchor9Point::TopLeft.rectangle_shift(), (1, -1));
    assert_eq!(Anchor9Point::Center.rectangle_shift(), (0, 0));
    assert_eq!(Anchor9Point::BottomRight.rectangle_shift(), (-1, 1));
    assert_eq!(Anchor9Point::CenterLeft.rectangle_shift(), (1, 0));
    assert_eq!(Anchor9Point::TopCenter.rectangle_shift(), (0, -1));
}

#[test]
fn orientation_labels_and_default() {
    assert_eq!(ProfileOrientation::default(), ProfileOrientation::FollowPath);
    assert_eq!(ProfileOrientation::FollowPath.to_string(), "Follow Path");
    assert_eq!(
        ProfileOrientation::Constant(ProfilePlane::XZ).to_string(),
        "Constant (XZ)"
    );
    assert_eq!(
        ProfileOrientation::Constant(ProfilePlane::YZ).to_string(),
        "Constant (YZ)"
    );
    assert_eq!(
        ProfileOrientation::Constant(ProfilePlane::XY).to_string(),
        "Constant (XY)"
    );
}

#[test]
fn bezier_needs_two_points() {
    let e = Bezier::new(vec![DVec2::new(0.0, 0.0)]).unwrap_err();
    assert_eq!(e, BezierError::NotEnoughPoints(1));
    assert_eq!(e.message(), "Bezier curve requires at least two points; 1 provided");
    assert_eq!(Bezier::new(vec![]).unwrap_err(), BezierError::NotEnoughPoints(0));
    let b = Bezier::new(vec![DVec2::new(0.0, 0.0), DVec2::new(1.0, 2.0)]).unwrap();
    assert_eq!(b.points().len(), 2);
    assert_eq!(b.clone().points()[1], DVec2::new(1.0, 2.0));
}

#[test]
fn serpentine_path_checks_in_order() {
    assert_eq!(path::check_serpentine(true, true), Err(path::SerpentineError::OrderedHeight));
    assert_eq!(path::check_serpentine(false, true), Err(path::SerpentineError::TooTall));
    assert_eq!(path::check_serpentine(false, false), Ok(()));
    assert_eq!(
        path::SerpentineError::TooTall.message(),
        "Serpentine curve height cannot be greater than its length."
    );
}

#[test]
fn catenary_segment_checks() {
    assert_eq!(
        catenary::check_segments(0),
        Err(CatenarySegmentsError::NotEnoughSegments { n: 0 })
    );
    assert_eq!(catenary::check_segments(1), Ok(()));
    assert_eq!(catenary::check_segments(4096), Ok(()));
    assert_eq!(
        catenary::check_segments(4097),
        Err(CatenarySegmentsError::TooManySegments { n: 4097 })
    );
    assert_eq!(
        CatenarySegmentsError::TooManySegments { n: 4097 }.message(),
        "n = 4097. Number of segments must be no greater than 4096."
    );
}

#[test]
fn default_sides() {
    let s = Side::default();
    assert_eq!(s.geom, SideGeom::default());
    assert_eq!(s.mtrl.texture, "mtrl/invisible");
    let g = curveball::map::geometry::Side::default();
    assert_eq!(g.mtrl.texture, "mtrl/invisible");
}

#[test]
fn hull_error_messages_match_chull() {
    let cases = vec![
        (chull::ErrorKind::Empty, "empty"),
        (chull::ErrorKind::LessThanTwoDim, "less than two dimention"),
        (chull::ErrorKind::Degenerated, "degenerated"),
        (chull::ErrorKind::WrongDimension, "wrong dimension"),
    ];
    for (e, text) in cases {
        assert_eq!(curveball::hull::hull_error_message(&e), text);
        assert_eq!(format!("{}", e), text);
        assert_eq!(
            CurveError::ConvexHullFail(e).message(),
            format!("Failed to find convex hull: {}", text)
        );
    }
    let e = chull::ErrorKind::RoundOffError(String::from("concave"));
    assert_eq!(
        curveball::hull::hull_error_message(&e),
        "erroneous results by roundoff error: concave"
    );
    assert_eq!(curveball::hull::hull_error_message(&e), format!("{}", e));
}
