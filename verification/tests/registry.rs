use daynight_capture::normalize_filename;
use daynight_capture::screen_cap::error::ScreenCapErrorCode;
use daynight_capture::screen_cap::region::PixelBuffer;
use daynight_capture::screen_cap::registry::{
    select_monitor, CaptureTarget, MonitorTarget, WindowList, WindowTarget,
};
use daynight_capture::screen_cap::ScreenCap;
use daynight_capture::settings::{global_settings, init_settings, ReadOutcome, Settings, SettingsStore};

fn window(handle: u32, title: &str, minimized: bool) -> WindowTarget {
    WindowTarget { handle, title: title.to_string(), minimized, width: 800, height: 600 }
}

fn keys(list: &WindowList) -> Vec<String> {
    list.get_vec().iter().map(|(key, _)| (*key).clone()).collect()
}

#[test]
fn normalize_filename_strips_the_four_characters() {
    assert_eq!(normalize_filename("a|b\\c:d/e"), "abcde");
    assert_eq!(normalize_filename("C:\\Games\\GW2/bin | 64"), "CGamesGW2bin  64");
    assert_eq!(normalize_filename("plain title"), "plain title");
    assert_eq!(normalize_filename("|\\:/"), "");
    assert_eq!(normalize_filename(""), "");
    assert_eq!(normalize_filename("Üb:er ✓ / 窓"), "Über ✓  窓");
}

#[test]
fn registry_leaves_out_minimized_windows() {
    let windows = vec![
        window(1, "Editor", false),
        window(2, "Hidden", true),
        window(3, "Terminal: bash", false),
        window(4, "Also hidden", true),
        window(5, "Editor", false),
    ];
    let list = WindowList::new(&windows);
    assert_eq!(list.len(), 3);
    assert_eq!(
        keys(&list),
        vec!["window-0-_-Editor", "window-1-_-Terminal bash", "window-2-_-Editor"]
    );
    let lines = list.get_vec();
    assert_eq!(lines[0].1.handle, 1);
    assert_eq!(lines[1].1.handle, 3);
    assert_eq!(lines[2].1.handle, 5);
    assert!(lines.iter().all(|(_, target)| !target.minimized));
}

#[test]
fn registry_of_nothing_and_of_minimized_only() {
    assert_eq!(WindowList::new(&Vec::new()).len(), 0);
    let list = WindowList::new(&vec![window(1, "a", true), window(2, "b", true)]);
    assert_eq!(list.len(), 0);
    assert!(list.get_vec().is_empty());
}

#[test]
fn registry_keys_are_unique_for_equal_titles() {
    let windows: Vec<WindowTarget> = (0..25).map(|h| window(h, "same", false)).collect();
    let list = WindowList::new(&windows);
    let mut all = keys(&list);
    assert_eq!(all[0], "window-0-_-same");
    assert_eq!(all[10], "window-10-_-same");
    assert_eq!(all[24], "window-24-_-same");
    all.sort();
    all.dedup();
    assert_eq!(all.len(), 25);
}

#[test]
fn registry_keys_stay_apart_when_a_title_imitates_a_key() {
    let windows = vec![window(1, "0-_-x", false), window(2, "x", false)];
    let list = WindowList::new(&windows);
    assert_eq!(keys(&list), vec!["window-0-_-0-_-x", "window-1-_-x"]);
}

#[test]
fn filter_by_title_guild_wars() {
    let windows =
        vec![window(1, "Guild Wars 2", false), window(2, "Guild Wars 2 - Settings", false)];
    let none = WindowList::new(&windows).filter_by_title("GW2");
    assert_eq!(none.len(), 0);
    let both = WindowList::new(&windows).filter_by_title("Guild Wars 2");
    assert_eq!(both.len(), 2);
    assert_eq!(
        keys(&both),
        vec!["window-0-_-Guild Wars 2", "window-1-_-Guild Wars 2 - Settings"]
    );
}

#[test]
fn filter_by_title_keeps_exactly_the_matching_lines() {
    let windows = vec![
        window(1, "alpha", false),
        window(2, "beta", false),
        window(3, "alphabet", false),
        window(4, "Alpha", false),
    ];
    let list = WindowList::new(&windows).filter_by_title("alpha");
    assert_eq!(keys(&list), vec!["window-0-_-alpha", "window-2-_-alphabet"]);
    let handles: Vec<u32> = list.get_vec().iter().map(|(_, t)| t.handle).collect();
    assert_eq!(handles, vec![1, 3]);
}

#[test]
fn filter_by_title_matches_the_key_not_only_the_title() {
    let windows = vec![window(1, "one", false), window(2, "two", false)];
    assert_eq!(WindowList::new(&windows).filter_by_title("window-1").len(), 1);
    assert_eq!(WindowList::new(&windows).filter_by_title("-_-").len(), 2);
    assert_eq!(WindowList::new(&windows).filter_by_title("").len(), 2);
    assert_eq!(WindowList::new(&windows).filter_by_title("window-1-_-two!").len(), 0);
}

#[test]
fn filter_by_title_can_be_repeated() {
    let windows = vec![
        window(1, "Guild Wars 2", false),
        window(2, "Guild Wars 2 - Settings", false),
        window(3, "Notes", false),
    ];
    let list = WindowList::new(&windows).filter_by_title("Guild").filter_by_title("Settings");
    assert_eq!(keys(&list), vec!["window-1-_-Guild Wars 2 - Settings"]);
}

#[test]
fn target_at_reports_a_missing_line() {
    let list = WindowList::new(&vec![window(7, "only", false)]);
    assert_eq!(list.target_at(0).unwrap().handle, 7);
    let error = list.target_at(1).unwrap_err();
    assert_eq!(error.code, ScreenCapErrorCode::TargetNotFound);
    assert_eq!(error.message.as_deref(), Some("1"));
    assert_eq!(error.describe(), "Cannot find monitor: 1");
    let empty = list.filter_by_title("GW2");
    assert_eq!(empty.target_at(0).unwrap_err().code, ScreenCapErrorCode::TargetNotFound);
}

#[test]
fn from_enumeration_builds_or_reports() {
    let list = WindowList::from_enumeration(Ok(vec![window(1, "a/b", false)])).unwrap();
    assert_eq!(keys(&list), vec!["window-0-_-ab"]);
    let error = WindowList::from_enumeration(Err("no display".to_string())).unwrap_err();
    assert_eq!(error.code, ScreenCapErrorCode::TargetEnumerationFailed);
    assert_eq!(error.message.as_deref(), Some("no display"));
}

#[test]
fn window_has_resized_compares_frame_sizes() {
    let before = WindowList::new(&vec![window(1, "game", false), window(2, "chat", false)]);
    let mut grown = window(1, "game", false);
    grown.width = 1024;
    let after = WindowList::new(&vec![grown, window(2, "chat", false)]);
    assert_eq!(before.window_has_resized("window-0-_-game", &after).unwrap(), true);
    assert_eq!(before.window_has_resized("window-1-_-chat", &after).unwrap(), false);
    let mut taller = window(2, "chat", false);
    taller.height = 601;
    let after = WindowList::new(&vec![window(1, "game", false), taller]);
    assert_eq!(before.window_has_resized("window-1-_-chat", &after).unwrap(), true);
}

#[test]
fn window_has_resized_reports_a_vanished_window() {
    let before = WindowList::new(&vec![window(1, "game", false), window(2, "chat", false)]);
    let after = WindowList::new(&vec![window(1, "game", false)]);
    let error = before.window_has_resized("window-1-_-chat", &after).unwrap_err();
    assert_eq!(error.code, ScreenCapErrorCode::TargetNotFound);
    assert_eq!(error.message.as_deref(), Some("window-1-_-chat"));
    let error = before.window_has_resized("window-9-_-none", &after).unwrap_err();
    assert_eq!(error.code, ScreenCapErrorCode::TargetNotFound);
    let error = after.window_has_resized("window-1-_-chat", &before).unwrap_err();
    assert_eq!(error.code, ScreenCapErrorCode::TargetNotFound);
}

#[test]
fn select_monitor_by_number() {
    let monitors = vec![
        MonitorTarget { index: 0, width: 1920, height: 1080 },
        MonitorTarget { index: 1, width: 2560, height: 1440 },
    ];
    assert_eq!(select_monitor(Ok(monitors.clone()), 1).unwrap(), monitors[1]);
    assert_eq!(select_monitor(Ok(monitors.clone()), 0).unwrap(), monitors[0]);
    let error = select_monitor(Ok(monitors), 2).unwrap_err();
    assert_eq!(error.code, ScreenCapErrorCode::TargetNotFound);
    assert_eq!(error.describe(), "Cannot find monitor: 2");
    let error = select_monitor(Ok(Vec::new()), 0).unwrap_err();
    assert_eq!(error.code, ScreenCapErrorCode::TargetNotFound);
    let error = select_monitor(Err("no display server".to_string()), 0).unwrap_err();
    assert_eq!(error.code, ScreenCapErrorCode::TargetEnumerationFailed);
    assert_eq!(error.message.as_deref(), Some("no display server"));
}

#[test]
fn session_keeps_its_target() {
    let session = ScreenCap::new(CaptureTarget::Monitor(MonitorTarget {
        index: 1,
        width: 1920,
        height: 1080,
    }));
    match session.target() {
        CaptureTarget::Monitor(monitor) => assert_eq!(monitor.index, 1),
        CaptureTarget::Window(_) => panic!("bound to a monitor"),
    }
}

#[test]
fn capture_area_passes_on_a_failed_capture() {
    let session = ScreenCap::new(CaptureTarget::Window(window(1, "gone", false)));
    let error = session.capture_area(Err("window closed".to_string()), 0, 0, 1, 1).unwrap_err();
    assert_eq!(error.code, ScreenCapErrorCode::CaptureFailed);
    assert_eq!(error.message.as_deref(), Some("window closed"));
    assert_eq!(error.describe(), "Internal Error: CaptureFailed");
}

#[test]
fn capture_area_crops_or_refuses() {
    let session = ScreenCap::new(CaptureTarget::Window(window(1, "game", false)));
    let frame = PixelBuffer::from_raw(2, 2, (0u8..16).collect()).unwrap();
    let area = session.capture_area(Ok(frame), 1, 1, 1, 1).unwrap();
    assert_eq!(area.as_raw(), &vec![12, 13, 14, 15]);
    let frame = PixelBuffer::from_raw(2, 2, (0u8..16).collect()).unwrap();
    let error = session.capture_area(Ok(frame), 1, 1, 2, 1).unwrap_err();
    assert_eq!(error.code, ScreenCapErrorCode::SubImageOutOfBounds);
}

#[test]
fn capture_targets() {
    let mut store = SettingsStore::new();
    init_settings(&mut store);

    // Get the shared settings, load into a local version
    let mut local_settings = Settings::default();
    {
        let writable_settings = global_settings(&mut store);
        let file = br#"{"version":1,"ocr_monitor_number":0,"ocr_x":0,"ocr_y":0,"ocr_width":600,"ocr_height":300,"icon_monitor_number":0,"icon_x":100,"icon_y":100,"icon_width":50,"icon_height":50}"#;
        if let Err(e) = writable_settings.load(ReadOutcome::Contents(file.to_vec())) {
            panic!("{:?}", e);
        }

        local_settings.ocr_monitor_number = writable_settings.ocr_monitor_number;
        local_settings.icon_monitor_number = writable_settings.icon_monitor_number;
        local_settings.ocr_x = writable_settings.ocr_x;
        local_settings.ocr_y = writable_settings.ocr_y;
        local_settings.ocr_width = writable_settings.ocr_width;
        local_settings.ocr_height = writable_settings.ocr_height;

        local_settings.icon_x = writable_settings.icon_x;
        local_settings.icon_y = writable_settings.icon_y;
        local_settings.icon_width = writable_settings.icon_width;
        local_settings.icon_height = writable_settings.icon_height;
    }

    // Get target window
    let enumeration = vec![
        window(10, "Terminal", false),
        window(11, "GW2 | Guild Wars 2", false),
        window(12, "GW2 launcher", true),
    ];
    let all_windows = WindowList::new(&enumeration);
    let window = all_windows.filter_by_title("GW2");
    let window = window.get_vec();
    assert_eq!(window.len(), 1);
    assert_eq!(window.get(0).unwrap().0, "window-1-_-GW2  Guild Wars 2");
    let window = ScreenCap::new(CaptureTarget::Window(window.get(0).unwrap().1.clone()));

    // Capture the OCR image
    let frame = || PixelBuffer::from_raw(800, 600, vec![7u8; 4 * 800 * 600]);
    let captured_ocr_image = window
        .capture_area(
            frame().ok_or("no frame".to_string()),
            local_settings.ocr_x,
            local_settings.ocr_y,
            local_settings.ocr_width,
            local_settings.ocr_height,
        )
        .unwrap();
    assert_eq!((captured_ocr_image.width(), captured_ocr_image.height()), (600, 300));

    // Capture the icon image
    let captured_icon_image = window
        .capture_area(
            frame().ok_or("no frame".to_string()),
            local_settings.icon_x,
            local_settings.icon_y,
            local_settings.icon_width,
            local_settings.icon_height,
        )
        .unwrap();
    assert_eq!((captured_icon_image.width(), captured_icon_image.height()), (50, 50));
}
