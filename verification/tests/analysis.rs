//! The analysis of a target in floating point on top of the library: the
//! library holds the thresholds and the verdicts, the measuring is done here.

use radar_sim::analysis::{
    DroneType, Findings, ThreatLevel, CLOSE_RANGE_KM, HIGH_THREAT_RANGE_KM,
    HIGH_THREAT_SPEED_M_S, LARGE_RCS_PERMILLE, MEDIUM_THREAT_RANGE_KM, MEDIUM_THREAT_SPEED_M_S,
    PROXIMITY_ALERT_PERCENT, RACING_SPEED_M_S, VELOCITY_ALERT_PERCENT,
};

#[derive(Debug, Clone)]
struct TargetPosition {
    id: usize,
    range_m: f64,
    azimuth_deg: f64,
    vel_m_s: f64,
    rcs: f64,
}

#[derive(Debug)]
struct TrajectoryAnalysis {
    heading_deg: f64,
    speed_m_s: f64,
    altitude_estimate_m: f64,
}

#[derive(Debug)]
struct RiskAssessment {
    proximity_risk: f64,
    velocity_risk: f64,
    overall_risk: f64,
}

#[derive(Debug)]
struct DroneAnalysis {
    drone_id: usize,
    threat_level: String,
    estimated_type: String,
    confidence: f64,
    trajectory_analysis: TrajectoryAnalysis,
    risk_assessment: RiskAssessment,
    recommendations: Vec<String>,
}

fn analyze_drone(target: &TargetPosition) -> DroneAnalysis {
    let speed = target.vel_m_s.abs();
    let range_km = target.range_m / 1000.0;

    let confidence = (target.rcs * 0.6 + 0.4).min(1.0);

    let heading_deg = target.azimuth_deg;
    let altitude_estimate_m =
        if range_km < 2.0 { 50.0 + (range_km * 25.0) } else { 100.0 + (range_km * 20.0) };

    let proximity_risk = (1.0 - (range_km / 50.0).min(1.0)) * 100.0;
    let velocity_risk = (speed / 100.0).min(1.0) * 100.0;
    let overall_risk = (proximity_risk * 0.6 + velocity_risk * 0.4).min(100.0);

    let findings = Findings {
        within_high_threat_range: range_km < f64::from(HIGH_THREAT_RANGE_KM),
        above_high_threat_speed: speed > f64::from(HIGH_THREAT_SPEED_M_S),
        within_medium_threat_range: range_km < f64::from(MEDIUM_THREAT_RANGE_KM),
        above_medium_threat_speed: speed > f64::from(MEDIUM_THREAT_SPEED_M_S),
        above_racing_speed: speed > f64::from(RACING_SPEED_M_S),
        above_large_rcs: target.rcs > f64::from(LARGE_RCS_PERMILLE) / 1000.0,
        proximity_alert: proximity_risk > f64::from(PROXIMITY_ALERT_PERCENT),
        velocity_alert: velocity_risk > f64::from(VELOCITY_ALERT_PERCENT),
        within_close_range: range_km < f64::from(CLOSE_RANGE_KM),
    };

    DroneAnalysis {
        drone_id: target.id,
        threat_level: findings.threat_level().label().to_string(),
        estimated_type: findings.estimated_type().label().to_string(),
        confidence,
        trajectory_analysis: TrajectoryAnalysis {
            heading_deg,
            speed_m_s: speed,
            altitude_estimate_m,
        },
        risk_assessment: RiskAssessment { proximity_risk, velocity_risk, overall_risk },
        recommendations: findings.recommendations(),
    }
}

fn calm() -> Findings {
    Findings {
        within_high_threat_range: false,
        above_high_threat_speed: false,
        within_medium_threat_range: false,
        above_medium_threat_speed: false,
        above_racing_speed: false,
        above_large_rcs: false,
        proximity_alert: false,
        velocity_alert: false,
        within_close_range: false,
    }
}

#[test]
fn test_analyze_drone_high_threat() {
    let target = TargetPosition {
        id: 1,
        range_m: 3_000.0, // 3 km - close range
        azimuth_deg: 45.0,
        vel_m_s: 50.0, // High speed
        rcs: 0.9,
    };

    let analysis = analyze_drone(&target);

    assert_eq!(analysis.drone_id, 1);
    assert_eq!(analysis.threat_level, "high");
    assert!(analysis.confidence > 0.0 && analysis.confidence <= 1.0);
    assert_eq!(analysis.trajectory_analysis.speed_m_s, 50.0);
    assert_eq!(analysis.trajectory_analysis.heading_deg, 45.0);
    assert!(analysis.risk_assessment.overall_risk > 0.0);
    assert!(!analysis.recommendations.is_empty());
}

#[test]
fn test_analyze_drone_medium_threat() {
    let target = TargetPosition {
        id: 2,
        range_m: 8_000.0, // 8 km
        azimuth_deg: 90.0,
        vel_m_s: 35.0, // Medium-high speed
        rcs: 0.7,
    };

    let analysis = analyze_drone(&target);

    assert_eq!(analysis.threat_level, "medium");
    assert_eq!(analysis.trajectory_analysis.speed_m_s, 35.0);
}

#[test]
fn test_analyze_drone_low_threat() {
    let target = TargetPosition {
        id: 3,
        range_m: 20_000.0, // 20 km - far away
        azimuth_deg: 180.0,
        vel_m_s: 15.0, // Low speed
        rcs: 0.5,
    };

    let analysis = analyze_drone(&target);

    assert_eq!(analysis.threat_level, "low");
    assert_eq!(analysis.trajectory_analysis.speed_m_s, 15.0);
}

#[test]
fn test_analyze_drone_racing_type() {
    let target = TargetPosition {
        id: 4,
        range_m: 10_000.0,
        azimuth_deg: 0.0,
        vel_m_s: 60.0, // Very high speed
        rcs: 0.6,
    };

    let analysis = analyze_drone(&target);

    assert_eq!(analysis.estimated_type, "Racing/High-Speed");
}

#[test]
fn test_analyze_drone_commercial_type() {
    let target = TargetPosition {
        id: 5,
        range_m: 10_000.0,
        azimuth_deg: 0.0,
        vel_m_s: 20.0,
        rcs: 0.9, // Large RCS
    };

    let analysis = analyze_drone(&target);

    assert_eq!(analysis.estimated_type, "Commercial/Large");
}

#[test]
fn test_analyze_drone_consumer_type() {
    let target = TargetPosition {
        id: 6,
        range_m: 10_000.0,
        azimuth_deg: 0.0,
        vel_m_s: 25.0,
        rcs: 0.5, // Small RCS
    };

    let analysis = analyze_drone(&target);

    assert_eq!(analysis.estimated_type, "Consumer/Small");
}

#[test]
fn test_analyze_drone_confidence_calculation() {
    let target_high_rcs =
        TargetPosition { id: 7, range_m: 10_000.0, azimuth_deg: 0.0, vel_m_s: 20.0, rcs: 1.0 };

    let target_low_rcs =
        TargetPosition { id: 8, range_m: 10_000.0, azimuth_deg: 0.0, vel_m_s: 20.0, rcs: 0.1 };

    let analysis_high = analyze_drone(&target_high_rcs);
    let analysis_low = analyze_drone(&target_low_rcs);

    // Higher RCS should generally lead to higher confidence
    assert!(analysis_high.confidence >= analysis_low.confidence);
    assert!(analysis_high.confidence > 0.0 && analysis_high.confidence <= 1.0);
    assert!(analysis_low.confidence > 0.0 && analysis_low.confidence <= 1.0);
}

#[test]
fn test_analyze_drone_risk_assessment() {
    let target_close = TargetPosition {
        id: 9,
        range_m: 1_000.0, // Very close
        azimuth_deg: 0.0,
        vel_m_s: 30.0,
        rcs: 0.8,
    };

    let target_far = TargetPosition {
        id: 10,
        range_m: 40_000.0, // Far away
        azimuth_deg: 0.0,
        vel_m_s: 30.0,
        rcs: 0.8,
    };

    let analysis_close = analyze_drone(&target_close);
    let analysis_far = analyze_drone(&target_far);

    // Closer target should have higher proximity risk
    assert!(
        analysis_close.risk_assessment.proximity_risk > analysis_far.risk_assessment.proximity_risk
    );
    assert!(
        analysis_close.risk_assessment.overall_risk > analysis_far.risk_assessment.overall_risk
    );
}

#[test]
fn test_analyze_drone_recommendations() {
    let target_high_risk = TargetPosition {
        id: 11,
        range_m: 2_000.0, // Very close
        azimuth_deg: 0.0,
        vel_m_s: 80.0, // Very high speed
        rcs: 0.9,
    };

    let analysis = analyze_drone(&target_high_risk);

    // Should have multiple recommendations for high-risk scenario
    assert!(!analysis.recommendations.is_empty());
    assert!(analysis.recommendations.len() >= 1);
}

#[test]
fn test_analyze_drone_negative_velocity() {
    let target = TargetPosition {
        id: 12,
        range_m: 10_000.0,
        azimuth_deg: 0.0,
        vel_m_s: -30.0, // Negative velocity (moving away)
        rcs: 0.7,
    };

    let analysis = analyze_drone(&target);

    // Speed should be absolute value
    assert_eq!(analysis.trajectory_analysis.speed_m_s, 30.0);
}

#[test]
fn test_analyze_drone_altitude_estimate() {
    let target_close = TargetPosition {
        id: 13,
        range_m: 1_000.0, // 1 km
        azimuth_deg: 0.0,
        vel_m_s: 20.0,
        rcs: 0.7,
    };

    let target_far = TargetPosition {
        id: 14,
        range_m: 10_000.0, // 10 km
        azimuth_deg: 0.0,
        vel_m_s: 20.0,
        rcs: 0.7,
    };

    let analysis_close = analyze_drone(&target_close);
    let analysis_far = analyze_drone(&target_far);

    // Altitude estimate should be reasonable
    assert!(analysis_close.trajectory_analysis.altitude_estimate_m > 0.0);
    assert!(analysis_far.trajectory_analysis.altitude_estimate_m > 0.0);
    // Far target should have higher altitude estimate
    assert!(
        analysis_far.trajectory_analysis.altitude_estimate_m
            > analysis_close.trajectory_analysis.altitude_estimate_m
    );
}

#[test]
fn thresholds_are_the_documented_values() {
    assert_eq!(HIGH_THREAT_RANGE_KM, 5);
    assert_eq!(HIGH_THREAT_SPEED_M_S, 40);
    assert_eq!(MEDIUM_THREAT_RANGE_KM, 10);
    assert_eq!(MEDIUM_THREAT_SPEED_M_S, 30);
    assert_eq!(RACING_SPEED_M_S, 50);
    assert_eq!(f64::from(LARGE_RCS_PERMILLE) / 1000.0, 0.8);
    assert_eq!(PROXIMITY_ALERT_PERCENT, 70);
    assert_eq!(VELOCITY_ALERT_PERCENT, 60);
    assert_eq!(CLOSE_RANGE_KM, 3);
}

#[test]
fn threat_is_high_only_where_near_and_fast() {
    let mut findings = calm();
    assert_eq!(findings.threat_level(), ThreatLevel::Low);

    findings.within_high_threat_range = true;
    assert_eq!(findings.threat_level(), ThreatLevel::Low);
    findings.above_high_threat_speed = true;
    assert_eq!(findings.threat_level(), ThreatLevel::High);
    findings.within_high_threat_range = false;
    assert_eq!(findings.threat_level(), ThreatLevel::Low);

    let mut findings = calm();
    findings.within_medium_threat_range = true;
    assert_eq!(findings.threat_level(), ThreatLevel::Medium);
    let mut findings = calm();
    findings.above_medium_threat_speed = true;
    assert_eq!(findings.threat_level(), ThreatLevel::Medium);
    findings.within_medium_threat_range = true;
    findings.within_high_threat_range = true;
    assert_eq!(findings.threat_level(), ThreatLevel::Medium);
    findings.above_high_threat_speed = true;
    assert_eq!(findings.threat_level(), ThreatLevel::High);
}

#[test]
fn kind_goes_by_speed_before_echo() {
    let mut findings = calm();
    assert_eq!(findings.estimated_type(), DroneType::Consumer);
    findings.above_large_rcs = true;
    assert_eq!(findings.estimated_type(), DroneType::Commercial);
    findings.above_racing_speed = true;
    assert_eq!(findings.estimated_type(), DroneType::Racing);
    findings.above_large_rcs = false;
    assert_eq!(findings.estimated_type(), DroneType::Racing);
}

#[test]
fn labels_are_the_words_of_the_report() {
    assert_eq!(ThreatLevel::Low.label(), "low");
    assert_eq!(ThreatLevel::Medium.label(), "medium");
    assert_eq!(ThreatLevel::High.label(), "high");
    assert_eq!(DroneType::Racing.label(), "Racing/High-Speed");
    assert_eq!(DroneType::Commercial.label(), "Commercial/Large");
    assert_eq!(DroneType::Consumer.label(), "Consumer/Small");
}

#[test]
fn recommendations_for_each_combination() {
    let proximity = "High proximity risk - consider immediate action";
    let velocity = "High velocity detected - monitor closely";
    let close = "Drone in close range - alert security personnel";
    let routine = "Continue monitoring - no immediate action required";

    for bits in 0..8u8 {
        let mut findings = calm();
        findings.proximity_alert = bits & 1 != 0;
        findings.velocity_alert = bits & 2 != 0;
        findings.within_close_range = bits & 4 != 0;
        let mut expected: Vec<&str> = Vec::new();
        if findings.proximity_alert {
            expected.push(proximity);
        }
        if findings.velocity_alert {
            expected.push(velocity);
        }
        if findings.within_close_range {
            expected.push(close);
        }
        if expected.is_empty() {
            expected.push(routine);
        }
        assert_eq!(findings.recommendations(), expected, "combination {bits}");
    }
}

#[test]
fn close_and_fast_target_gets_all_three_recommendations() {
    let target =
        TargetPosition { id: 11, range_m: 2_000.0, azimuth_deg: 0.0, vel_m_s: 80.0, rcs: 0.9 };
    let analysis = analyze_drone(&target);
    assert_eq!(analysis.threat_level, "high");
    assert_eq!(analysis.estimated_type, "Racing/High-Speed");
    assert_eq!(
        analysis.recommendations,
        vec![
            "High proximity risk - consider immediate action",
            "High velocity detected - monitor closely",
            "Drone in close range - alert security personnel",
        ]
    );
}

#[test]
fn far_and_slow_target_gets_the_routine_recommendation() {
    let target =
        TargetPosition { id: 3, range_m: 20_000.0, azimuth_deg: 180.0, vel_m_s: 15.0, rcs: 0.5 };
    let analysis = analyze_drone(&target);
    assert_eq!(
        analysis.recommendations,
        vec!["Continue monitoring - no immediate action required"]
    );
}

#[test]
fn target_at_a_threshold_is_not_beyond_it() {
    let at = TargetPosition { id: 1, range_m: 5_000.0, azimuth_deg: 0.0, vel_m_s: 40.0, rcs: 0.8 };
    let analysis = analyze_drone(&at);
    // Neither nearer than 5 km nor faster than 40 m/s, but nearer than 10 km.
    assert_eq!(analysis.threat_level, "medium");
    // An amplitude factor of 0.8 is not above 0.8.
    assert_eq!(analysis.estimated_type, "Consumer/Small");
}
