use windows_iap::clock::UnixTime;
use windows_iap::context::ContextEvent;
use windows_iap::context::ContextStep;
use windows_iap::error::Error;
use windows_iap::error::PluginInvokeError;
use windows_iap::error::WindowsError;
use windows_iap::iap::init;
use windows_iap::iap::Iap;
use windows_iap::text::is_blank;
use windows_iap::text::is_white_space;
use windows_iap::text::push_decimal;
use windows_iap::text::text_eq;

fn code_and_message(error: Error) -> (String, String) {
    match error {
        Error::PluginInvoke(PluginInvokeError::InvokeRejected(r)) => {
            (r.code.unwrap(), r.message.unwrap())
        }
        Error::Windows(e) => ("windows".to_string(), e.message),
    }
}

fn failure(step: ContextStep) -> (String, String) {
    match step {
        ContextStep::Fail(error) => code_and_message(error),
        other => panic!("{:?}", other),
    }
}

#[test]
fn white_space_is_that_of_std() {
    for n in 0..=0x10ffffu32 {
        if let Some(c) = char::from_u32(n) {
            assert_eq!(is_white_space(c), c.is_whitespace(), "{:x}", n);
        }
    }
}

#[test]
fn blank_texts_trim_to_nothing() {
    for s in ["", " ", "\t\r\n", "\u{a0}\u{2003}", " a ", "\u{200b}", "\u{feff}"] {
        assert_eq!(is_blank(s), s.trim().is_empty(), "{:?}", s);
    }
}

#[test]
fn decimals_are_those_of_std() {
    for n in [0, 1, 9, 10, 11, 99, 100, 1234567890, -1, -10, i64::MAX, i64::MIN] {
        let mut out = "n=".to_string();
        push_decimal(&mut out, n);
        assert_eq!(out, format!("n={}", n));
    }
}

#[test]
fn texts_compare_by_their_characters() {
    assert!(text_eq("subs", "subs"));
    assert!(!text_eq("subs", "Subs"));
    assert!(text_eq("", ""));
}

#[test]
fn store_times_become_unix_milliseconds() {
    assert_eq!(Iap::datetime_to_unix_millis(116_444_736_000_000_000), 0);
    assert_eq!(Iap::datetime_to_unix_millis(116_444_736_019_999_999), 1000);
    assert_eq!(Iap::datetime_to_unix_millis(0), -11_644_473_600_000);
    assert_eq!(Iap::datetime_to_unix_millis(-15_000_000), -11_644_473_601_000);
    assert_eq!(
        Iap::datetime_to_unix_millis(i64::MAX),
        (i64::MAX / 10_000_000 - 11_644_473_600) * 1000
    );
    assert_eq!(
        Iap::datetime_to_unix_millis(i64::MIN),
        (i64::MIN / 10_000_000 - 11_644_473_600) * 1000
    );
}

#[test]
fn store_times_keep_their_order() {
    let times = [i64::MIN, -10_000_001, -1, 0, 1, 9_999_999, 10_000_000, i64::MAX];
    for pair in times.windows(2) {
        assert!(
            Iap::datetime_to_unix_millis(pair[0]) <= Iap::datetime_to_unix_millis(pair[1])
        );
    }
}

#[test]
fn clock_readings_become_milliseconds() {
    let reading = Ok(UnixTime { secs: 1_700_000_000, subsec_nanos: 123_999_999 });
    assert_eq!(Iap::millis_of(&reading).unwrap(), 1_700_000_000_123);
    assert_eq!(Iap::nonce_of(&reading), 123_999_999);
}

#[test]
fn clock_readings_out_of_range_are_rejected() {
    let limit = Ok(UnixTime { secs: 9_223_372_036_854_775, subsec_nanos: 807_999_999 });
    assert_eq!(Iap::millis_of(&limit).unwrap(), i64::MAX);
    let reading = Ok(UnixTime { secs: 9_223_372_036_854_775, subsec_nanos: 808_000_000 });
    let text = i64::try_from(i64::MAX as u128 + 1).unwrap_err().to_string();
    assert_eq!(
        code_and_message(Iap::millis_of(&reading).unwrap_err()),
        (
            "systemTimeError".to_string(),
            format!("System time out of i64 range: {}", text)
        )
    );
    let farthest = Ok(UnixTime { secs: u64::MAX, subsec_nanos: 999_999_999 });
    assert!(Iap::millis_of(&farthest).is_err());
}

#[test]
fn clock_errors_are_rejected() {
    let reading = Err("SystemTimeError(1s)".to_string());
    assert_eq!(
        code_and_message(Iap::millis_of(&reading).unwrap_err()),
        (
            "systemTimeError".to_string(),
            "Failed to get system time: SystemTimeError(1s)".to_string()
        )
    );
    assert_eq!(Iap::nonce_of(&reading), 0);
}

#[test]
fn the_clock_is_read() {
    let before = std::time::SystemTime::now()
        .duration_since(std::time::UNIX_EPOCH)
        .unwrap()
        .as_millis() as i64;
    let now = Iap::now_millis().unwrap();
    assert!(before <= now && now <= before + 60_000);
    let moment = Iap::read_moment();
    assert!(moment.nonce < 1_000_000_000);
    assert!(Iap::millis_of(&moment.now).unwrap() >= now);
}

#[test]
fn store_ids_are_cut_from_sku_ids() {
    assert_eq!(Iap::store_id_from_sku_store_id("9NXXXX/000N"), "9NXXXX");
    assert_eq!(Iap::store_id_from_sku_store_id("9NXXXX"), "9NXXXX");
    assert_eq!(Iap::store_id_from_sku_store_id("a/b/c"), "a");
    assert_eq!(Iap::store_id_from_sku_store_id("/b"), "/b");
    assert_eq!(Iap::store_id_from_sku_store_id("a/"), "a");
    assert_eq!(Iap::store_id_from_sku_store_id(""), "");
    assert_eq!(Iap::store_id_from_sku_store_id("\u{e9}\u{1f600}/x"), "\u{e9}\u{1f600}");
    let once = Iap::store_id_from_sku_store_id("a/b/c");
    assert_eq!(Iap::store_id_from_sku_store_id(&once), once);
}

#[test]
fn rejections_have_code_and_message() {
    assert_eq!(
        code_and_message(Iap::reject("c", "m".to_string())),
        ("c".to_string(), "m".to_string())
    );
    assert_eq!(init("demo".to_string()).unwrap().package_name, "demo");
}

#[test]
fn acknowledging_does_nothing() {
    let iap = init("demo".to_string()).unwrap();
    assert!(iap.acknowledge_purchase("anything".to_string()).is_ok());
}

#[test]
fn a_new_context_is_made_bound_and_kept() {
    let steps = [
        Iap::get_store_context(ContextEvent::Locked { present: false }),
        Iap::get_store_context(ContextEvent::Created),
        Iap::get_store_context(ContextEvent::WindowSought { found: true }),
        Iap::get_store_context(ContextEvent::HandleKnown),
        Iap::get_store_context(ContextEvent::Bound),
        Iap::get_store_context(ContextEvent::KeptSought { present: true }),
    ];
    assert!(matches!(steps[0], ContextStep::Create));
    assert!(matches!(steps[1], ContextStep::SeekWindow));
    assert!(matches!(steps[2], ContextStep::AskHandle));
    assert!(matches!(steps[3], ContextStep::Bind));
    assert!(matches!(steps[4], ContextStep::Keep));
    assert!(matches!(steps[5], ContextStep::Use));
}

#[test]
fn a_kept_context_is_used() {
    assert!(matches!(
        Iap::get_store_context(ContextEvent::Locked { present: true }),
        ContextStep::SeekKept
    ));
}

#[test]
fn failed_context_steps_are_reported() {
    let error = || WindowsError { code: -5, message: "no".to_string() };
    let pair = |a: &str, b: &str| (a.to_string(), b.to_string());
    assert_eq!(
        failure(Iap::get_store_context(ContextEvent::LockFailed("poisoned".to_string()))),
        pair("internalError", "Failed to acquire write lock: poisoned")
    );
    assert_eq!(
        failure(Iap::get_store_context(ContextEvent::CreateFailed(error()))),
        pair("windows", "no")
    );
    assert_eq!(
        failure(Iap::get_store_context(ContextEvent::WindowSought { found: false })),
        pair("windowError", "Failed to get main window")
    );
    assert_eq!(
        failure(Iap::get_store_context(ContextEvent::HandleFailed("none".to_string()))),
        pair("windowError", "Failed to get window handle: none")
    );
    assert_eq!(
        failure(Iap::get_store_context(ContextEvent::BindFailed(error()))),
        pair("windows", "no")
    );
    assert_eq!(
        failure(Iap::get_store_context(ContextEvent::KeptSought { present: false })),
        pair("storeNotInitialized", "Store context not initialized")
    );
}
