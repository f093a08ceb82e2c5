use asi_camera::abi;
use asi_camera::enums::{
    ASIBayerPattern, ASIBool, ASICameraMode, ASIControlType, ASIExposureStatus, ASIFlipStatus,
    ASIGuideDirection, ASIImageType, ASITrigOutput,
};

#[test]
fn bayer_pattern_codec() {
    assert_eq!(ASIBayerPattern::from_raw(0), ASIBayerPattern::RG);
    assert_eq!(ASIBayerPattern::from_raw(1), ASIBayerPattern::BG);
    assert_eq!(ASIBayerPattern::from_raw(2), ASIBayerPattern::GR);
    assert_eq!(ASIBayerPattern::from_raw(3), ASIBayerPattern::GB);
    assert_eq!(ASIBayerPattern::GB.to_raw(), 3);
    assert!(!ASIBayerPattern::is_known(4));
    assert!(!ASIBayerPattern::is_known(-1));
}

#[test]
fn image_type_codec() {
    assert_eq!(ASIImageType::from_raw(0), ASIImageType::Raw8);
    assert_eq!(ASIImageType::from_raw(1), ASIImageType::Rgb24);
    assert_eq!(ASIImageType::from_raw(2), ASIImageType::Raw16);
    assert_eq!(ASIImageType::from_raw(3), ASIImageType::Y8);
    assert_eq!(ASIImageType::from_raw(-1), ASIImageType::End);
    assert_eq!(ASIImageType::End.to_raw(), abi::ASI_IMG_END);
    assert_eq!(ASIImageType::Raw16.to_raw(), 2);
    assert!(!ASIImageType::is_known(4));
    assert!(!ASIImageType::is_known(-2));
}

#[test]
fn guide_direction_codec() {
    assert_eq!(ASIGuideDirection::from_raw(0), ASIGuideDirection::North);
    assert_eq!(ASIGuideDirection::from_raw(1), ASIGuideDirection::South);
    assert_eq!(ASIGuideDirection::from_raw(2), ASIGuideDirection::East);
    assert_eq!(ASIGuideDirection::from_raw(3), ASIGuideDirection::West);
    assert_eq!(ASIGuideDirection::East.to_raw(), 2);
    assert!(!ASIGuideDirection::is_known(4));
}

#[test]
fn flip_status_codec() {
    assert_eq!(ASIFlipStatus::from_raw(0), ASIFlipStatus::NoFlip);
    assert_eq!(ASIFlipStatus::from_raw(1), ASIFlipStatus::Horizontal);
    assert_eq!(ASIFlipStatus::from_raw(2), ASIFlipStatus::Vertical);
    assert_eq!(ASIFlipStatus::from_raw(3), ASIFlipStatus::Both);
    assert_eq!(ASIFlipStatus::Both.to_raw(), 3);
    assert!(!ASIFlipStatus::is_known(-1));
}

#[test]
fn camera_mode_codec() {
    assert_eq!(ASICameraMode::from_raw(0), ASICameraMode::Normal);
    assert_eq!(ASICameraMode::from_raw(1), ASICameraMode::TrigSoftEdge);
    assert_eq!(ASICameraMode::from_raw(2), ASICameraMode::TrigRiseEdge);
    assert_eq!(ASICameraMode::from_raw(3), ASICameraMode::TrigFallEdge);
    assert_eq!(ASICameraMode::from_raw(4), ASICameraMode::TrigSoftLevel);
    assert_eq!(ASICameraMode::from_raw(5), ASICameraMode::TrigHighLevel);
    assert_eq!(ASICameraMode::from_raw(6), ASICameraMode::TrigLowLevel);
    assert_eq!(ASICameraMode::from_raw(-1), ASICameraMode::End);
    assert_eq!(ASICameraMode::TrigLowLevel.to_raw(), 6);
    assert!(!ASICameraMode::is_known(7));
}

#[test]
fn trig_output_codec() {
    assert_eq!(ASITrigOutput::from_raw(0), ASITrigOutput::PinA);
    assert_eq!(ASITrigOutput::from_raw(1), ASITrigOutput::PinB);
    assert_eq!(ASITrigOutput::from_raw(-1), ASITrigOutput::NoPin);
    assert_eq!(ASITrigOutput::NoPin.to_raw(), -1);
    assert!(!ASITrigOutput::is_known(2));
}

#[test]
fn bool_codec() {
    assert_eq!(ASIBool::from_raw(0), ASIBool::False);
    assert_eq!(ASIBool::from_raw(1), ASIBool::True);
    assert_eq!(ASIBool::True.to_raw(), 1);
    assert_eq!(ASIBool::False.to_raw(), 0);
    assert!(!ASIBool::is_known(2));
    assert!(!ASIBool::is_known(-1));
    assert!(ASIBool::True.to_bool());
    assert!(!ASIBool::False.to_bool());
    assert_eq!(ASIBool::from_bool(true), ASIBool::True);
    assert_eq!(ASIBool::from_bool(false), ASIBool::False);
}

#[test]
fn control_type_codec() {
    let all = [
        ASIControlType::Gain,
        ASIControlType::Exposure,
        ASIControlType::Gamma,
        ASIControlType::WbR,
        ASIControlType::WbB,
        ASIControlType::Offset,
        ASIControlType::BandwidthOverload,
        ASIControlType::OverClock,
        ASIControlType::Temperature,
        ASIControlType::Flip,
        ASIControlType::AutoMaxGain,
        ASIControlType::AutoMaxExp,
        ASIControlType::AutoTargetBrightness,
        ASIControlType::HardwareBin,
        ASIControlType::HighSpeedMode,
        ASIControlType::CoolerPowerPerc,
        ASIControlType::TargetTemp,
        ASIControlType::CoolerOn,
        ASIControlType::MonoBin,
        ASIControlType::FanOn,
        ASIControlType::PatternAdjust,
        ASIControlType::AntiDewHeater,
    ];
    for (raw, v) in all.iter().enumerate() {
        assert_eq!(v.to_raw(), raw as i32);
        assert_eq!(ASIControlType::from_raw(raw as i32), *v);
    }
    assert!(!ASIControlType::is_known(22));
    assert!(!ASIControlType::is_known(-1));
}

#[test]
fn exposure_status_codec() {
    assert_eq!(ASIExposureStatus::from_raw(0), ASIExposureStatus::Idle);
    assert_eq!(ASIExposureStatus::from_raw(1), ASIExposureStatus::Working);
    assert_eq!(ASIExposureStatus::from_raw(2), ASIExposureStatus::Success);
    assert_eq!(ASIExposureStatus::from_raw(3), ASIExposureStatus::Failed);
    assert_eq!(ASIExposureStatus::Failed.to_raw(), 3);
    assert!(!ASIExposureStatus::is_known(4));
}

#[test]
fn every_known_value_comes_back_from_its_variant() {
    for raw in -3..30 {
        if ASIImageType::is_known(raw) {
            assert_eq!(ASIImageType::from_raw(raw).to_raw(), raw);
        }
        if ASICameraMode::is_known(raw) {
            assert_eq!(ASICameraMode::from_raw(raw).to_raw(), raw);
        }
        if ASITrigOutput::is_known(raw) {
            assert_eq!(ASITrigOutput::from_raw(raw).to_raw(), raw);
        }
        if ASIBayerPattern::is_known(raw) {
            assert_eq!(ASIBayerPattern::from_raw(raw).to_raw(), raw);
        }
        if ASIGuideDirection::is_known(raw) {
            assert_eq!(ASIGuideDirection::from_raw(raw).to_raw(), raw);
        }
        if ASIFlipStatus::is_known(raw) {
            assert_eq!(ASIFlipStatus::from_raw(raw).to_raw(), raw);
        }
        if ASIExposureStatus::is_known(raw) {
            assert_eq!(ASIExposureStatus::from_raw(raw).to_raw(), raw);
        }
        if ASIControlType::is_known(raw) {
            assert_eq!(ASIControlType::from_raw(raw).to_raw(), raw);
        }
        if ASIBool::is_known(raw) {
            assert_eq!(ASIBool::from_raw(raw).to_raw(), raw);
        }
    }
}
