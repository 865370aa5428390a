use llm_manager::backends::{fetch_backend_picker_entries, Backend, GpuVendor, Platform};
use llm_manager::keys::{Key, KeyCode};
use llm_manager::overlay::pickers::host_picker_entries;
use llm_manager::overlay::registry::is_ready;
use llm_manager::overlay::{GlobalMode, OverlayContext, WebSearchCheckStatus};
use llm_manager::templates::sort_jinja_files;
use llm_manager::websearch::{authorization, check_status, check_web_search_health, health_check_url, HealthReply};

#[test]
fn host_entries_put_the_fixed_addresses_first() {
    let found = vec![
        ("lo".to_string(), "127.0.0.1".to_string()),
        ("eth0".to_string(), "192.168.1.20".to_string()),
        ("any".to_string(), "0.0.0.0".to_string()),
        ("wlan0".to_string(), "10.0.0.7".to_string()),
    ];
    let entries = host_picker_entries(&found);
    let expected: Vec<(String, String)> = vec![
        ("127.0.0.1".to_string(), "localhost".to_string()),
        ("0.0.0.0".to_string(), "All interfaces".to_string()),
        ("192.168.1.20".to_string(), "eth0".to_string()),
        ("10.0.0.7".to_string(), "wlan0".to_string()),
    ];
    assert_eq!(entries, expected);
}

#[test]
fn backend_entries_by_platform() {
    let installed = vec![
        (Backend::Vulkan, "b4000".to_string(), true),
        (Backend::CudaWindows12_4, "b3000".to_string(), false),
    ];
    let linux = fetch_backend_picker_entries(Platform::Linux, false, &vec![GpuVendor::Amd, GpuVendor::Other], &installed);
    assert_eq!(
        linux,
        vec![
            (Backend::Cpu, None),
            (Backend::Vulkan, None),
            (Backend::Rocm, None),
            (Backend::RocmLemonade, None),
            (Backend::Vulkan, Some("b4000".to_string())),
        ]
    );
    let arm = fetch_backend_picker_entries(Platform::Linux, true, &vec![GpuVendor::Nvidia], &vec![]);
    assert_eq!(arm, vec![(Backend::Cpu, None), (Backend::Vulkan, None), (Backend::CpuArm64, None), (Backend::Cuda, None)]);
    let windows = fetch_backend_picker_entries(Platform::Windows, false, &vec![GpuVendor::Nvidia], &vec![]);
    assert_eq!(
        windows,
        vec![
            (Backend::CpuWindows, None),
            (Backend::VulkanWindows, None),
            (Backend::CudaWindows12_4, None),
            (Backend::CudaWindows13_1, None),
        ]
    );
    let mac = fetch_backend_picker_entries(Platform::Macos, true, &vec![GpuVendor::Amd], &vec![]);
    assert_eq!(mac, vec![(Backend::CpuMacosArm64, None)]);
}

#[test]
fn web_search_health_requests() {
    assert_eq!(health_check_url("http://localhost:8888//"), "http://localhost:8888/search?q=test&format=json");
    assert_eq!(health_check_url("http://h"), "http://h/search?q=test&format=json");
    assert_eq!(authorization(""), None);
    assert_eq!(authorization("k"), Some("Bearer k".to_string()));
}

#[test]
fn web_search_health_verdicts() {
    assert_eq!(check_web_search_health(&HealthReply::Body("{\"results\": []}".to_string())), Ok(()));
    let bad = check_web_search_health(&HealthReply::Body("<html>".to_string())).unwrap_err();
    assert!(bad.starts_with("Invalid JSON response: "));
    assert!(bad.len() > "Invalid JSON response: ".len());
    assert_eq!(
        check_web_search_health(&HealthReply::BadStatus { status: "404 Not Found".to_string(), reason: Some("Not Found".to_string()) }),
        Err("HTTP 404 Not Found: Not Found".to_string())
    );
    assert_eq!(
        check_web_search_health(&HealthReply::BadStatus { status: "599 <unknown status code>".to_string(), reason: None }),
        Err("HTTP 599 <unknown status code>: Unknown".to_string())
    );
    assert_eq!(
        check_web_search_health(&HealthReply::ConnectionFailed("refused".to_string())),
        Err("Connection failed: refused".to_string())
    );
    assert!(matches!(check_status(Ok(())), WebSearchCheckStatus::Passed));
    assert!(matches!(check_status(Err("x".to_string())), WebSearchCheckStatus::Failed(m) if m == "x"));
}

#[test]
fn template_files_sorted_by_name_ignoring_case() {
    let files = vec![
        ("b.jinja".to_string(), "/t/b.jinja".to_string()),
        ("A.jinja".to_string(), "/t/A.jinja".to_string()),
        ("sub/a.jinja".to_string(), "/t/sub/a.jinja".to_string()),
        ("a.jinja".to_string(), "/t/a.jinja".to_string()),
    ];
    let sorted = sort_jinja_files(files.clone());
    let mut expected = files;
    expected.sort_by_key(|f| f.0.to_lowercase());
    assert_eq!(sorted, expected);
}

#[test]
fn readiness_before_dispatch() {
    let ctx = OverlayContext {
        rope_yarn_enabled: false,
        threads: 1,
        threads_batch: 1,
        server_mode_index: None,
        server_mode_count: 1,
        selected_preset_content: None,
        user_preset_count: 0,
    };
    let ok = GlobalMode::SearchInput { buffer: "ab".to_string(), cursor_pos: 2 };
    assert!(is_ready(&ok, Key::plain(KeyCode::Char('x')), &ctx));
    let bad = GlobalMode::SearchInput { buffer: "ab".to_string(), cursor_pos: 3 };
    assert!(!is_ready(&bad, Key::plain(KeyCode::Char('x')), &ctx));
    let empty = GlobalMode::BackendPicker { entries: vec![], selected: 0 };
    assert!(!is_ready(&empty, Key::plain(KeyCode::Enter), &ctx));
    assert!(is_ready(&empty, Key::plain(KeyCode::Up), &ctx));
}
