use insight_reader::hotkey::{HotkeyConfig, HotkeyModifiers};
use insight_reader::model::Platform;
use insight_reader::system::clipboard::{copy_commands, get_selected_text, process_text, text_preview};
use insight_reader::system::is_wayland_hyprland;
use insight_reader::system::screenshot::{
    capture_backend, capture_methods, capture_region, extract_text_from_image, grim_slurp_attempt, python_candidates,
    screencapture_result, script_candidates, slurp_region, text_from_ocr_lines, tool_attempt, CaptureMethod,
    CaptureBackend, CaptureStep, OcrRun, OcrStep, ScreencaptureRun, SlurpOutcome, SlurpRun, ToolRun,
};
use insight_reader::system::single_instance::{
    bring_to_front_message, ipc_socket_path_in, lock_file_path_in, try_recv_bring_to_front, SingleInstanceError,
};
use insight_reader::system::text_cleanup::{
    cleanup_request, cleanup_text, markdown_to_plain_text, md_tag_of, plain_text_of_events, CleanupReply, MdEvent, MdTag,
};
use insight_reader::system::tray::{read_selected_label, TrayEvent};

#[test]
fn preview_is_cut_at_200_characters() {
    let short = "héllo";
    assert_eq!(text_preview(short), "héllo");
    let exact: String = "é".repeat(200);
    assert_eq!(text_preview(&exact), exact);
    let long: String = "ab".repeat(150);
    let expected = format!("{}...", &long[..200]);
    assert_eq!(text_preview(&long), expected);
}

#[test]
fn selected_text_is_trimmed_and_falls_back() {
    assert_eq!(process_text("  some text \n".to_string()), Some("some text".to_string()));
    assert_eq!(process_text(" \n\t".to_string()), None);
    assert_eq!(
        get_selected_text(Some(" primary ".to_string()), Some("clip".to_string())),
        Some("primary".to_string())
    );
    assert_eq!(get_selected_text(Some("   ".to_string()), Some(" clip ".to_string())), Some("clip".to_string()));
    assert_eq!(get_selected_text(None, Some("clip".to_string())), Some("clip".to_string()));
    assert_eq!(get_selected_text(None, None), None);
}

#[test]
fn wayland_hyprland_detection() {
    assert!(is_wayland_hyprland(true, &None, true, &None));
    assert!(is_wayland_hyprland(false, &Some("Wayland".to_string()), false, &Some("Hyprland".to_string())));
    assert!(is_wayland_hyprland(true, &None, false, &Some("GNOME:hyprland-x".to_string())));
    assert!(!is_wayland_hyprland(false, &Some("x11".to_string()), true, &None));
    assert!(!is_wayland_hyprland(true, &None, false, &Some("GNOME".to_string())));
    assert!(!is_wayland_hyprland(false, &None, true, &Some("Hyprland".to_string())));
}

#[test]
fn markdown_becomes_plain_text() {
    let md = "# Title\n\nSome **bold**   and *italic* text.\nNext line with `code`.\n\n- one\n- two\n";
    // Inline markup (strong, emphasis, code, links) leaves its text within the line.
    assert_eq!(
        markdown_to_plain_text(md),
        "Title\nSome bold and italic text.\nNext line with code.\none\ntwo"
    );
    assert_eq!(markdown_to_plain_text("Some **bold** text"), "Some bold text");
    assert_eq!(markdown_to_plain_text(""), "");
    assert_eq!(markdown_to_plain_text("plain   words\nwrapped line"), "plain words\nwrapped line");
    assert_eq!(markdown_to_plain_text("[a link](http://x.y) here"), "a link here");
}

#[test]
fn plain_text_of_hand_made_events() {
    let events = vec![
        MdEvent::Text("Hello  ".to_string()),
        MdEvent::Code("world".to_string()),
        MdEvent::End("BlockQuote".to_string()),
        MdEvent::End("BlockQuote".to_string()),
        MdEvent::Text("  next\t line ".to_string()),
        MdEvent::HardBreak,
        MdEvent::Rule,
        MdEvent::Text("   ".to_string()),
        MdEvent::End("Paragraph".to_string()),
    ];
    assert_eq!(plain_text_of_events(&events), "Hello world\nnext line");
}

#[test]
fn cleanup_replies() {
    assert_eq!(
        cleanup_text(CleanupReply::ConnectFailed("connection refused".to_string())),
        Err("Failed to connect to cleanup API: connection refused".to_string())
    );
    assert_eq!(
        cleanup_text(CleanupReply::HttpError { status: "500 Internal Server Error".to_string(), body: "oops".to_string() }),
        Err("Cleanup API error (500 Internal Server Error): oops".to_string())
    );
    assert_eq!(
        cleanup_text(CleanupReply::BadResponse("missing field".to_string())),
        Err("Failed to parse cleanup API response: missing field".to_string())
    );
    assert_eq!(cleanup_text(CleanupReply::Cleaned("Read this.".to_string())), Ok("Read this.".to_string()));
    assert_eq!(cleanup_text(CleanupReply::Cleaned("**Read** this.".to_string())), Ok("Read this.".to_string()));
}

#[test]
fn capture_plan_order() {
    let methods = capture_methods();
    let names: Vec<String> = methods
        .iter()
        .map(|m| match m {
            CaptureMethod::Tool(t) => t.name.clone(),
            CaptureMethod::GrimSlurp => "grim+slurp".to_string(),
        })
        .collect();
    assert_eq!(names, vec!["flameshot", "maim", "grim+slurp", "scrot", "gnome-screenshot", "spectacle"]);
    match &methods[5] {
        CaptureMethod::Tool(t) => assert_eq!(t.args, vec!["-r", "-b", "-o"]),
        CaptureMethod::GrimSlurp => panic!("spectacle expected"),
    }
}

#[test]
fn tool_runs() {
    let path = "/tmp/insight-reader-screenshot.png";
    assert_eq!(tool_attempt(ToolRun::Unavailable, path), None);
    assert_eq!(tool_attempt(ToolRun::LaunchFailed, path), None);
    assert_eq!(
        tool_attempt(ToolRun::Finished { success: false, exit_code: Some(1), file_exists: false }, path),
        Some(Err("Screenshot selection cancelled".to_string()))
    );
    assert_eq!(tool_attempt(ToolRun::Finished { success: false, exit_code: Some(2), file_exists: false }, path), None);
    assert_eq!(tool_attempt(ToolRun::Finished { success: false, exit_code: None, file_exists: true }, path), None);
    assert_eq!(
        tool_attempt(ToolRun::Finished { success: true, exit_code: Some(0), file_exists: true }, path),
        Some(Ok(path.to_string()))
    );
    assert_eq!(tool_attempt(ToolRun::Finished { success: true, exit_code: Some(0), file_exists: false }, path), None);
}

#[test]
fn grim_and_slurp() {
    let path = "/tmp/s.png";
    assert!(matches!(slurp_region(SlurpRun::Unavailable), SlurpOutcome::Skip));
    assert!(matches!(
        slurp_region(SlurpRun::Finished { success: false, exit_code: Some(1), stdout: String::new() }),
        SlurpOutcome::Cancelled
    ));
    assert!(matches!(
        slurp_region(SlurpRun::Finished { success: true, exit_code: Some(0), stdout: " \n".to_string() }),
        SlurpOutcome::Skip
    ));
    match slurp_region(SlurpRun::Finished { success: true, exit_code: Some(0), stdout: "10,20 30x40\n".to_string() }) {
        SlurpOutcome::Region(r) => assert_eq!(r, "10,20 30x40"),
        _ => panic!("region expected"),
    }
    let ok = ToolRun::Finished { success: true, exit_code: Some(0), file_exists: true };
    assert_eq!(grim_slurp_attempt(SlurpOutcome::Region("r".to_string()), ok.clone(), path), Some(Ok(path.to_string())));
    assert_eq!(
        grim_slurp_attempt(SlurpOutcome::Cancelled, ok.clone(), path),
        Some(Err("Screenshot selection cancelled".to_string()))
    );
    assert_eq!(grim_slurp_attempt(SlurpOutcome::Skip, ok, path), None);
}

#[test]
fn capture_steps() {
    assert!(matches!(capture_region(0, None), CaptureStep::Try(0)));
    assert!(matches!(capture_region(5, None), CaptureStep::Try(5)));
    match capture_region(6, None) {
        CaptureStep::Finished(Err(m)) => assert_eq!(
            m,
            "No screenshot tools available. Please install flameshot, maim, grim+slurp, scrot, gnome-screenshot, or spectacle"
        ),
        _ => panic!("failure expected"),
    }
    match capture_region(3, Some(Ok("/tmp/x.png".to_string()))) {
        CaptureStep::Finished(Ok(p)) => assert_eq!(p, "/tmp/x.png"),
        _ => panic!("path expected"),
    }
}

#[test]
fn ocr_script_and_python_locations() {
    assert_eq!(
        script_candidates(&Some("/opt/ir/bin".to_string()), &Some("/opt/ir".to_string()), &Some("/d".to_string())),
        vec![
            "/opt/ir/bin/extract_text_from_image.py".to_string(),
            "/opt/ir/extract_text_from_image.py".to_string(),
            "/d/insight-reader/bin/extract_text_from_image.py".to_string(),
            "install/extract_text_from_image.py".to_string(),
        ]
    );
    assert_eq!(script_candidates(&None, &None, &None), vec!["install/extract_text_from_image.py".to_string()]);
    assert_eq!(
        python_candidates(&Some("/w".to_string()), &Some("/d".to_string())),
        vec!["/w/venv/bin/python".to_string(), "/d/insight-reader/venv/bin/python".to_string()]
    );
}

fn finished(success: bool, code: Option<i32>, stdout: &str, stderr: &str) -> OcrStep {
    OcrStep::Ran(OcrRun::Finished { success, exit_code: code, stdout: stdout.to_string(), stderr: stderr.to_string() })
}

#[test]
fn ocr_results() {
    let img = "/tmp/shot.png";
    let linux = Platform::Linux;
    assert_eq!(
        extract_text_from_image(linux, img, OcrStep::ImageMissing),
        Err("Image file does not exist: /tmp/shot.png".to_string())
    );
    assert_eq!(
        extract_text_from_image(linux, img, OcrStep::ScriptMissing),
        Err("extract_text_from_image.py script not found".to_string())
    );
    assert_eq!(
        extract_text_from_image(Platform::MacOs, img, OcrStep::ScriptMissing),
        Err("extract_text_from_image.swift script not found".to_string())
    );
    assert_eq!(
        extract_text_from_image(linux, img, OcrStep::Ran(OcrRun::LaunchFailed("No such file".to_string()))),
        Err("Failed to execute text extraction: No such file".to_string())
    );
    assert_eq!(
        extract_text_from_image(linux, img, finished(false, Some(1), "", "  ")),
        Err("No text found in image".to_string())
    );
    assert_eq!(
        extract_text_from_image(linux, img, finished(false, Some(1), "", "Traceback\n")),
        Err("Text extraction failed: Traceback".to_string())
    );
    assert_eq!(
        extract_text_from_image(linux, img, finished(true, Some(0), "\n \n", "")),
        Err("No text found in image".to_string())
    );
    assert_eq!(
        extract_text_from_image(linux, img, finished(true, Some(0), "  line one\nline two\n\n", "")),
        Ok("  line one\nline two".to_string())
    );
    assert_eq!(
        extract_text_from_image(Platform::MacOs, img, finished(true, Some(0), "  line one\n", "")),
        Ok("  line one".to_string())
    );
    assert_eq!(
        extract_text_from_image(Platform::Windows, img, finished(true, Some(0), "x", "")),
        Err("Text extraction from images is only supported on macOS and Linux".to_string())
    );
}

#[test]
fn native_ocr_lines() {
    let lines = vec!["First".to_string(), "   ".to_string(), "Second line".to_string()];
    assert_eq!(text_from_ocr_lines(&lines), Ok("First\nSecond line".to_string()));
    assert_eq!(text_from_ocr_lines(&vec![" ".to_string()]), Err("No text found in image".to_string()));
    assert_eq!(text_from_ocr_lines(&vec![]), Err("No text found in image".to_string()));
}

#[test]
fn macos_screencapture() {
    let path = "/tmp/insight-reader-screenshot.png";
    assert_eq!(
        screencapture_result(ScreencaptureRun::LaunchFailed("denied".to_string()), path),
        Err("Failed to execute screenshot command: denied".to_string())
    );
    assert_eq!(
        screencapture_result(
            ScreencaptureRun::Finished { success: false, exit_code: Some(1), stderr: String::new(), file_exists: false },
            path
        ),
        Err("Screenshot selection cancelled".to_string())
    );
    assert_eq!(
        screencapture_result(
            ScreencaptureRun::Finished { success: false, exit_code: Some(2), stderr: " bad \n".to_string(), file_exists: false },
            path
        ),
        Err("Screenshot failed: bad".to_string())
    );
    assert_eq!(
        screencapture_result(
            ScreencaptureRun::Finished { success: true, exit_code: Some(0), stderr: String::new(), file_exists: false },
            path
        ),
        Err("Screenshot file was not created".to_string())
    );
    assert_eq!(
        screencapture_result(
            ScreencaptureRun::Finished { success: true, exit_code: Some(0), stderr: String::new(), file_exists: true },
            path
        ),
        Ok(path.to_string())
    );
}

#[test]
fn single_instance_paths_and_messages() {
    assert_eq!(
        lock_file_path_in(&Some("/home/ada/.config".to_string())),
        Ok("/home/ada/.config/insight-reader/.lock".to_string())
    );
    assert_eq!(
        lock_file_path_in(&None),
        Err(SingleInstanceError::IoError("Config directory not found".to_string()))
    );
    assert_eq!(
        ipc_socket_path_in(&Some("/c".to_string())),
        Ok("/c/insight-reader/ipc.sock".to_string())
    );
    assert_eq!(ipc_socket_path_in(&None), Err("Config directory not found".to_string()));
    assert_eq!(SingleInstanceError::LockFailed.message(), "Another instance of Insight Reader is already running");
    assert_eq!(SingleInstanceError::IoError("disk full".to_string()).message(), "IO error: disk full");
}

#[test]
fn bring_to_front_messages() {
    assert_eq!(bring_to_front_message(), b"BRING_TO_FRONT".to_vec());
    assert!(try_recv_bring_to_front(&Some(b"BRING_TO_FRONT".to_vec())));
    assert!(try_recv_bring_to_front(&Some(b"BRING_TO_FRONT and more".to_vec())));
    assert!(!try_recv_bring_to_front(&Some(b"BRING_TO_FRON".to_vec())));
    assert!(!try_recv_bring_to_front(&Some(b"bring_to_front".to_vec())));
    assert!(!try_recv_bring_to_front(&None));
}

#[test]
fn tray_label() {
    let h = HotkeyConfig {
        modifiers: HotkeyModifiers { shift: false, alt: false, control: true, meta: false },
        key: "KeyR".to_string(),
    };
    assert_eq!(read_selected_label(Some(&h), Platform::Linux), "Read Selected\tCtrl + R");
    assert_eq!(read_selected_label(None, Platform::Linux), "Read Selected");
    assert_ne!(TrayEvent::ShowWindow, TrayEvent::Quit);
}

#[test]
fn plain_text_lines_are_clean() {
    let text = markdown_to_plain_text("#  Heading  \n\n  para   one\n\n\n* item   a\n* item b\n\n> quoted\n");
    assert!(!text.is_empty());
    for line in text.split('\n') {
        assert!(!line.is_empty());
        assert_eq!(line.trim(), line);
        assert!(!line.contains("  "));
    }
}

#[test]
fn capture_backend_per_platform() {
    assert_eq!(capture_backend(Platform::MacOs), Ok(CaptureBackend::Screencapture));
    assert_eq!(capture_backend(Platform::Linux), Ok(CaptureBackend::Tools));
    assert_eq!(
        capture_backend(Platform::Windows),
        Err("Screenshot region selection is only supported on macOS and Linux".to_string())
    );
}

#[test]
fn inline_ends_keep_the_line() {
    let events = vec![
        MdEvent::Start("Paragraph".to_string()),
        MdEvent::Text("Some ".to_string()),
        MdEvent::Start("Strong".to_string()),
        MdEvent::Text("bold".to_string()),
        MdEvent::End("Strong".to_string()),
        MdEvent::Text(" text".to_string()),
        MdEvent::End("Paragraph".to_string()),
    ];
    assert_eq!(plain_text_of_events(&events), "Some bold text");
}

#[test]
fn element_kinds_from_printed_tags() {
    assert_eq!(md_tag_of("Paragraph"), MdTag::Paragraph);
    assert_eq!(md_tag_of("Heading(H1, None, [])"), MdTag::Heading);
    assert_eq!(md_tag_of("Link(Inline, Borrowed(\"http://x.y\"), Borrowed(\"\"))"), MdTag::Link);
    assert_eq!(md_tag_of("List(Some(1))"), MdTag::List);
    assert_eq!(md_tag_of("TableCell"), MdTag::TableCell);
    assert_eq!(md_tag_of("Table([])"), MdTag::Table);
    assert_eq!(md_tag_of("Bogus"), MdTag::Unknown);
    assert_eq!(md_tag_of(""), MdTag::Unknown);
}

#[test]
fn cleanup_request_body_and_address() {
    let r = cleanup_request("Hello");
    assert_eq!(r.url, "http://localhost:8080/api/content-cleanup");
    assert_eq!(r.body, "{\"content\":\"Hello\"}");
    let r = cleanup_request("say \"hi\"\\\n\ttab\u{1}");
    assert_eq!(r.body, "{\"content\":\"say \\\"hi\\\"\\\\\\n\\ttab\\u0001\"}");
    let r = cleanup_request("");
    assert_eq!(r.body, "{\"content\":\"\"}");
    let r = cleanup_request("é\u{1f}");
    assert_eq!(r.body, "{\"content\":\"é\\u001f\"}");
}

#[test]
fn cleanup_request_body_is_the_json_serialisation() {
    for text in ["plain", "quote \" and \\ backslash", "lines\nand\rreturns\u{8}\u{c}", "\u{0}\u{1f}\u{7f}ü"] {
        let mut obj = std::collections::BTreeMap::new();
        obj.insert("content", text);
        assert_eq!(cleanup_request(text).body, serde_json::to_string(&obj).unwrap());
    }
}

#[test]
fn copy_commands_per_platform() {
    let mac = copy_commands(Platform::MacOs).unwrap();
    assert_eq!(mac.len(), 1);
    assert_eq!(mac[0].program, "pbcopy");
    assert!(mac[0].args.is_empty());
    let linux = copy_commands(Platform::Linux).unwrap();
    assert_eq!(linux.len(), 2);
    assert_eq!(linux[0].program, "wl-copy");
    assert!(linux[0].args.is_empty());
    assert_eq!(linux[1].program, "xclip");
    assert_eq!(linux[1].args, vec!["-selection", "clipboard"]);
    assert_eq!(copy_commands(Platform::Windows).unwrap_err(), "Clipboard copy not supported on this platform");
}

#[test]
fn block_ends_break_lines_once() {
    assert_eq!(markdown_to_plain_text("> quoted\n\nafter"), "quoted\nafter");
    assert_eq!(markdown_to_plain_text("```\ncode line\n```\nnext"), "code line\nnext");
}
