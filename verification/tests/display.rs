use razer_hid::cli::display::{outcome_text, stages_text, Battery, Outcome};
use razer_hid::commands::dpi::DpiStage;

#[test]
fn command_reports() {
    let n = "Razer DeathAdder V2";
    assert_eq!(
        outcome_text(n, &Outcome::Battery(Battery { level: 87, charging: true })),
        "Razer DeathAdder V2: battery 87% (charging)"
    );
    assert_eq!(
        outcome_text(n, &Outcome::Battery(Battery { level: 5, charging: false })),
        "Razer DeathAdder V2: battery 5%"
    );
    assert_eq!(outcome_text(n, &Outcome::Dpi { x: 1600, y: 800 }), "Razer DeathAdder V2: DPI 1600x800");
    assert_eq!(outcome_text(n, &Outcome::DpiSet { x: 400, y: 400 }), "Razer DeathAdder V2: set DPI 400x400");
    assert_eq!(
        outcome_text(n, &Outcome::ColorSet { rgb: [255, 0, 128], led: 4 }),
        format!("{n}: set static color {:?} on LED {:#04x}", [255u8, 0, 128], 4u8)
    );
    assert_eq!(
        outcome_text(n, &Outcome::BrightnessSet { value: 128, led: 1 }),
        "Razer DeathAdder V2: set brightness 128/255 (50 %) on LED 0x01"
    );
    assert_eq!(
        outcome_text(n, &Outcome::Brightness { value: 255, led: 0x0A }),
        "Razer DeathAdder V2: brightness 255/255 (100 %) on LED 0x0a"
    );
    assert_eq!(outcome_text(n, &Outcome::Polling { hz: 1000 }), "Razer DeathAdder V2: polling at 1000 Hz");
    assert_eq!(outcome_text(n, &Outcome::PollingSet { hz: 125 }), "Razer DeathAdder V2: set polling rate 125 Hz");
}

#[test]
fn stage_report_marks_the_active_stage() {
    let stages = [
        DpiStage { index: 0, dpi_x: 800, dpi_y: 800 },
        DpiStage { index: 1, dpi_x: 1600, dpi_y: 1600 },
    ];
    assert_eq!(
        stages_text("Mouse", 1, &stages),
        "Mouse: set 2 DPI stage(s), active stage 1\n  stage 0: 800x800\n  stage 1: 1600x1600 <== active\n"
    );
    assert_eq!(stages_text("Mouse", 0, &[]), "Mouse: set 0 DPI stage(s), active stage 0\n");
}
