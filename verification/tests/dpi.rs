use razer_hid::commands::dpi::{
    build_get_dpi_stages, build_get_dpi_xy, build_set_dpi_stages, build_set_dpi_xy, parse_dpi_stages,
    parse_dpi_xy, DpiError, DpiStage, CLASS, CMD_GET_STAGES, CMD_GET_XY, CMD_SET_STAGES, CMD_SET_XY,
    STAGES_DATA_SIZE,
};

#[test]
fn set_dpi_xy_bytes_and_clamp() {
    let r = build_set_dpi_xy(0x3F, 0x01, 1600, 1600);
    assert_eq!(r.command_class, CLASS);
    assert_eq!(r.command_id, CMD_SET_XY);
    assert_eq!(r.data_size, 7);
    // 1600 = 0x0640
    assert_eq!(&r.arguments[..7], &[0x01, 0x06, 0x40, 0x06, 0x40, 0, 0]);
    assert!(r.crc_valid());

    // Below-min clamps up to 100 = 0x0064.
    let low = build_set_dpi_xy(0x3F, 0x01, 1, 1);
    assert_eq!(&low.arguments[..5], &[0x01, 0x00, 0x64, 0x00, 0x64]);

    // Above-max clamps down to 45000 = 0xAFC8.
    let high = build_set_dpi_xy(0x3F, 0x01, 60000, 60000);
    assert_eq!(&high.arguments[..5], &[0x01, 0xAF, 0xC8, 0xAF, 0xC8]);
}

#[test]
fn get_dpi_xy_bytes() {
    let r = build_get_dpi_xy(0x3F, 0x01);
    assert_eq!(r.command_id, CMD_GET_XY);
    assert_eq!(r.data_size, 7);
    assert_eq!(&r.arguments[..7], &[0x01, 0, 0, 0, 0, 0, 0]);
}

#[test]
fn parse_dpi_xy_round_trip() {
    let mut report = build_get_dpi_xy(0x3F, 0x01);
    report.arguments[1] = 0x06;
    report.arguments[2] = 0x40;
    report.arguments[3] = 0x03;
    report.arguments[4] = 0x20;
    assert_eq!(parse_dpi_xy(&report), (1600, 800));
}

#[test]
fn set_dpi_stages_bytes() {
    let stages = [
        DpiStage {
            index: 0,
            dpi_x: 800,
            dpi_y: 800,
        },
        DpiStage {
            index: 1,
            dpi_x: 1600,
            dpi_y: 1600,
        },
    ];
    let r = build_set_dpi_stages(0x3F, 0x01, 0x01, &stages).expect("valid stage count");
    assert_eq!(r.command_class, CLASS);
    assert_eq!(r.command_id, CMD_SET_STAGES);
    assert_eq!(r.data_size, STAGES_DATA_SIZE as u8);
    assert_eq!(&r.arguments[..3], &[0x01, 0x01, 0x02]);
    assert_eq!(
        &r.arguments[3..10],
        &[0x00, 0x03, 0x20, 0x03, 0x20, 0x00, 0x00]
    );
    assert_eq!(
        &r.arguments[10..17],
        &[0x01, 0x06, 0x40, 0x06, 0x40, 0x00, 0x00]
    );
}

#[test]
fn set_dpi_stages_rejects_too_many() {
    let stages = [DpiStage {
        index: 0,
        dpi_x: 800,
        dpi_y: 800,
    }; 6];
    let err = build_set_dpi_stages(0x3F, 0x01, 0, &stages).unwrap_err();
    assert_eq!(err, DpiError::TooManyStages { count: 6, max: 5 });
}

#[test]
fn get_dpi_stages_bytes() {
    let r = build_get_dpi_stages(0x3F, 0x01);
    assert_eq!(r.command_id, CMD_GET_STAGES);
    assert_eq!(r.data_size, STAGES_DATA_SIZE as u8);
    assert_eq!(r.arguments[0], 0x01);
}

#[test]
fn parse_dpi_stages_round_trip() {
    let mut report = build_get_dpi_stages(0x3F, 0x01);
    report.arguments[1] = 0x02; // active stage
    report.arguments[2] = 0x02; // count
    report.arguments[3..10].copy_from_slice(&[0x00, 0x03, 0x20, 0x03, 0x20, 0x00, 0x00]);
    report.arguments[10..17].copy_from_slice(&[0x01, 0x06, 0x40, 0x06, 0x40, 0x00, 0x00]);
    let (active, stages) = parse_dpi_stages(&report);
    assert_eq!(active, 0x02);
    assert_eq!(stages.len(), 2);
    assert_eq!(
        stages[0],
        DpiStage {
            index: 0,
            dpi_x: 800,
            dpi_y: 800
        }
    );
    assert_eq!(
        stages[1],
        DpiStage {
            index: 1,
            dpi_x: 1600,
            dpi_y: 1600
        }
    );
}

#[test]
fn dpi_xy_builder_then_parser_gives_clamped_values() {
    let r = build_set_dpi_xy(0x3F, 0x01, 50, 50000);
    assert_eq!(parse_dpi_xy(&r), (100, 45000));
    let r = build_set_dpi_xy(0x3F, 0x00, 1234, 20000);
    assert_eq!(parse_dpi_xy(&r), (1234, 20000));
}

#[test]
fn dpi_stages_builder_then_parser_round_trip() {
    let stages = [
        DpiStage { index: 0, dpi_x: 10, dpi_y: 400 },
        DpiStage { index: 1, dpi_x: 800, dpi_y: 800 },
        DpiStage { index: 2, dpi_x: 1600, dpi_y: 3200 },
        DpiStage { index: 3, dpi_x: 6400, dpi_y: 6400 },
        DpiStage { index: 4, dpi_x: 65535, dpi_y: 12000 },
    ];
    let r = build_set_dpi_stages(0x3F, 0x01, 0x03, &stages).expect("five stages fit");
    let (active, parsed) = parse_dpi_stages(&r);
    assert_eq!(active, 0x03);
    assert_eq!(parsed.len(), 5);
    assert_eq!(parsed[0], DpiStage { index: 0, dpi_x: 100, dpi_y: 400 });
    assert_eq!(parsed[4], DpiStage { index: 4, dpi_x: 45000, dpi_y: 12000 });
    assert_eq!(parsed[2], stages[2]);
    // Bytes past the five stages stay zero.
    assert_eq!(r.arguments[38..].iter().filter(|&&b| b != 0).count(), 0);
}

#[test]
fn parse_dpi_stages_caps_count_at_five() {
    let mut report = build_get_dpi_stages(0x3F, 0x01);
    report.arguments[2] = 9;
    let (_, stages) = parse_dpi_stages(&report);
    assert_eq!(stages.len(), 5);
}

#[test]
fn empty_stage_table_is_accepted() {
    let r = build_set_dpi_stages(0x3F, 0x00, 0, &[]).expect("zero stages fit");
    assert_eq!(&r.arguments[..3], &[0x00, 0x00, 0x00]);
    assert!(r.arguments[3..38].iter().all(|&b| b == 0));
}
