use daynight_capture::ocr_state::error::{OcrError, OcrErrorCode};
use daynight_capture::screen_cap::error::{ScreenCapError, ScreenCapErrorCode};
use daynight_capture::settings::error::{SettingsError, SettingsErrorCode};
use daynight_capture::{OCR_ERROR_SPACE, SCREEN_CAP_ERROR_SPACE, SETTINGS_ERROR_SPACE};

#[test]
fn error_spaces() {
    assert_eq!(SETTINGS_ERROR_SPACE, 100);
    assert_eq!(SCREEN_CAP_ERROR_SPACE, 200);
    assert_eq!(OCR_ERROR_SPACE, 300);
}

#[test]
fn settings_codes() {
    assert_eq!(SettingsErrorCode::IoError.number(), 100);
    assert_eq!(SettingsErrorCode::SerializeError.number(), 101);
    assert_eq!(SettingsErrorCode::DeserializeError.number(), 102);
    assert_eq!(SettingsErrorCode::IoError.name(), "IoError");
    assert_eq!(SettingsErrorCode::SerializeError.name(), "SerializeError");
    assert_eq!(SettingsErrorCode::DeserializeError.name(), "DeserializeError");
}

#[test]
fn screen_cap_codes() {
    assert_eq!(ScreenCapErrorCode::TargetNotFound.number(), 200);
    assert_eq!(ScreenCapErrorCode::CaptureFailed.number(), 201);
    assert_eq!(ScreenCapErrorCode::SubImageOutOfBounds.number(), 202);
    assert_eq!(ScreenCapErrorCode::TargetEnumerationFailed.number(), 203);
    assert_eq!(ScreenCapErrorCode::TargetNotFound.name(), "TargetNotFound");
    assert_eq!(ScreenCapErrorCode::CaptureFailed.name(), "CaptureFailed");
    assert_eq!(ScreenCapErrorCode::SubImageOutOfBounds.name(), "SubImageOutOfBounds");
    assert_eq!(ScreenCapErrorCode::TargetEnumerationFailed.name(), "TargetEnumerationFailed");
}

#[test]
fn ocr_codes() {
    assert_eq!(OcrErrorCode::ImageToTextFailed.number(), 300);
    assert_eq!(OcrErrorCode::ImageToTextFailed.name(), "ImageToTextFailed");
}

#[test]
fn code_bands_do_not_meet() {
    let settings = [
        SettingsErrorCode::IoError.number(),
        SettingsErrorCode::SerializeError.number(),
        SettingsErrorCode::DeserializeError.number(),
    ];
    let capture = [
        ScreenCapErrorCode::TargetNotFound.number(),
        ScreenCapErrorCode::CaptureFailed.number(),
        ScreenCapErrorCode::SubImageOutOfBounds.number(),
        ScreenCapErrorCode::TargetEnumerationFailed.number(),
    ];
    let ocr = [OcrErrorCode::ImageToTextFailed.number()];
    assert!(settings.iter().all(|n| (100..200).contains(n)));
    assert!(capture.iter().all(|n| (200..300).contains(n)));
    assert!(ocr.iter().all(|n| (300..400).contains(n)));
}

#[test]
fn settings_error_texts() {
    let error = SettingsError::new(SettingsErrorCode::IoError, Some("Failed to open settings file"));
    assert_eq!(error.code, SettingsErrorCode::IoError);
    assert_eq!(error.message.as_deref(), Some("Failed to open settings file"));
    assert_eq!(error.describe(), "Issue With Settings File: Failed to open settings file");
    assert_eq!(
        error.debug_text(),
        "SettingsError { code: IoError, message: Failed to open settings file }"
    );
    let error = SettingsError::new(SettingsErrorCode::IoError, None);
    assert_eq!(error.message, None);
    assert_eq!(error.describe(), "Issue With Settings File: ");
    let error = SettingsError::new(SettingsErrorCode::DeserializeError, Some("expected value"));
    assert_eq!(error.describe(), "Internal Error: DeserializeError");
    assert_eq!(
        error.debug_text(),
        "SettingsError { code: DeserializeError, message: expected value }"
    );
    let error = SettingsError::new(SettingsErrorCode::SerializeError, None);
    assert_eq!(error.describe(), "Internal Error: SerializeError");
    assert_eq!(error.debug_text(), "SettingsError { code: SerializeError, message:  }");
}

#[test]
fn screen_cap_error_texts() {
    let error = ScreenCapError::new(ScreenCapErrorCode::TargetNotFound, Some("monitor 3"));
    assert_eq!(error.code, ScreenCapErrorCode::TargetNotFound);
    assert_eq!(error.message.as_deref(), Some("monitor 3"));
    assert_eq!(error.describe(), "Cannot find monitor: monitor 3");
    assert_eq!(
        error.debug_text(),
        "ScreenCap Error { code: TargetNotFound, message: monitor 3 }"
    );
    let error = ScreenCapError::new(ScreenCapErrorCode::TargetNotFound, None);
    assert_eq!(error.describe(), "Cannot find monitor: ");
    let error = ScreenCapError::new(ScreenCapErrorCode::SubImageOutOfBounds, Some("details"));
    assert_eq!(error.describe(), "Internal Error: SubImageOutOfBounds");
    assert_eq!(
        error.debug_text(),
        "ScreenCap Error { code: SubImageOutOfBounds, message: details }"
    );
    let error = ScreenCapError::new(ScreenCapErrorCode::CaptureFailed, None);
    assert_eq!(error.describe(), "Internal Error: CaptureFailed");
    let error = ScreenCapError::new(ScreenCapErrorCode::TargetEnumerationFailed, Some("x"));
    assert_eq!(error.describe(), "Internal Error: TargetEnumerationFailed");
}

#[test]
fn ocr_error_texts() {
    let error = OcrError::new(OcrErrorCode::ImageToTextFailed, Some("blurred"));
    assert_eq!(error.code, OcrErrorCode::ImageToTextFailed);
    assert_eq!(error.message.as_deref(), Some("blurred"));
    assert_eq!(error.describe(), "Internal Error: ImageToTextFailed");
    assert_eq!(error.debug_text(), "Ocr Error { code: ImageToTextFailed, message: blurred }");
    let error = OcrError::new(OcrErrorCode::ImageToTextFailed, None);
    assert_eq!(error.message, None);
    assert_eq!(error.debug_text(), "Ocr Error { code: ImageToTextFailed, message:  }");
}
