use reminder_scheduler::popup::{get_popup_count, popup_label, popup_page};
use reminder_scheduler::tray::{
    start_tray_flash, stop_tray_flash, FlashFlag, FlashRun, FlashStep, TrayIcon,
    FLASH_INTERVAL_MILLIS, FLASH_STEPS, SMALL_ICON_PERCENT,
};

#[test]
fn a_popup_is_named_after_its_reminder() {
    assert_eq!(popup_label("abc"), "popup-abc");
    assert_eq!(popup_label(""), "popup-");
    assert_eq!(popup_page("abc"), "/popup?uuid=abc");
}

#[test]
fn popups_are_counted_by_their_labels() {
    let labels = vec![
        "main".to_string(),
        "popup-a".to_string(),
        "popup".to_string(),
        "popup-".to_string(),
        "a-popup-b".to_string(),
        popup_label("x"),
    ];
    assert_eq!(get_popup_count(&labels), 3);
    assert_eq!(get_popup_count(&Vec::new()), 0);
}

#[test]
fn flashing_starts_once() {
    let mut flag = FlashFlag { flashing: false };
    assert!(start_tray_flash(&mut flag));
    assert!(flag.flashing);
    assert!(!start_tray_flash(&mut flag));
    assert!(flag.flashing);
    stop_tray_flash(&mut flag);
    assert!(!flag.flashing);
    stop_tray_flash(&mut flag);
    assert!(!flag.flashing);
    assert!(start_tray_flash(&mut flag));
}

#[test]
fn a_run_of_flashing_alternates_the_icons_and_ends() {
    assert_eq!(FLASH_STEPS, 10);
    assert_eq!(FLASH_INTERVAL_MILLIS, 400);
    assert_eq!(SMALL_ICON_PERCENT, 60);
    let mut flag = FlashFlag { flashing: false };
    assert!(start_tray_flash(&mut flag));
    let mut run = FlashRun::new();
    let mut shown = Vec::new();
    loop {
        match run.step(&mut flag, true) {
            FlashStep::Show(icon) => shown.push(icon),
            FlashStep::Skip => panic!("the tray is there"),
            FlashStep::Finish => break,
        }
    }
    assert_eq!(shown.len(), 10);
    for (i, icon) in shown.iter().enumerate() {
        assert_eq!(*icon, if i % 2 == 0 { TrayIcon::Small } else { TrayIcon::Original });
    }
    assert!(!flag.flashing);
    assert_eq!(run.step(&mut flag, true), FlashStep::Finish);
}

#[test]
fn a_run_of_flashing_stops_when_asked() {
    let mut flag = FlashFlag { flashing: true };
    let mut run = FlashRun::new();
    assert!(run.continues(&flag));
    assert_eq!(run.step(&mut flag, true), FlashStep::Show(TrayIcon::Small));
    assert_eq!(run.step(&mut flag, false), FlashStep::Skip);
    assert_eq!(run.step(&mut flag, true), FlashStep::Show(TrayIcon::Original));
    stop_tray_flash(&mut flag);
    assert!(!run.continues(&flag));
    assert_eq!(run.step(&mut flag, true), FlashStep::Finish);
    assert_eq!(run.steps, 3);
}
