use treemd_core::app::{App, Document, Heading, HeadingNode};
use treemd_core::kitty::{
    animation_commands, delete_animation, kitty_command, pause_animation, resume_animation, ImageIdCounter,
};
use treemd_core::modes::Task;
use treemd_core::watch::{is_relevant_event, should_reload, WatchEventKind};

fn small_app() -> App {
    let content = "# A\ntext\n# B\n".to_string();
    let headings = vec![
        Heading { level: 1, text: "A".to_string(), offset: 0 },
        Heading { level: 1, text: "B".to_string(), offset: 9 },
    ];
    let tree = vec![
        HeadingNode { heading: headings[0].clone(), children: vec![] },
        HeadingNode { heading: headings[1].clone(), children: vec![] },
    ];
    let sections = headings.iter().map(|h| format!("# {}\n", h.text)).collect();
    App::new(Document { content, headings, sections }, tree, "a.md".to_string(), "/w/a.md".to_string(), 30, true, false)
}

#[test]
fn write_to_watched_file_is_relevant() {
    let paths = vec!["/w/other.md".to_string(), "/w/a.md".to_string()];
    assert!(is_relevant_event(Some("/w/a.md"), &paths, WatchEventKind::ModifyData));
    assert!(is_relevant_event(Some("/w/a.md"), &paths, WatchEventKind::CloseWrite));
    assert!(is_relevant_event(Some("/w/a.md"), &paths, WatchEventKind::Create));
    assert!(is_relevant_event(Some("/w/a.md"), &paths, WatchEventKind::ModifyAny));
}

#[test]
fn other_events_are_not_relevant() {
    let paths = vec!["/w/a.md".to_string()];
    assert!(!is_relevant_event(Some("/w/a.md"), &paths, WatchEventKind::AccessOther));
    assert!(!is_relevant_event(Some("/w/a.md"), &paths, WatchEventKind::Remove));
    assert!(!is_relevant_event(Some("/w/a.md"), &paths, WatchEventKind::ModifyOther));
    assert!(!is_relevant_event(Some("/w/b.md"), &paths, WatchEventKind::ModifyData));
    assert!(!is_relevant_event(None, &paths, WatchEventKind::ModifyData));
}

#[test]
fn reload_waits_for_debounce() {
    assert!(should_reload(true, 100, 100));
    assert!(!should_reload(true, 99, 100));
    assert!(!should_reload(false, 500, 100));
}

#[test]
fn kitty_command_frames_params_and_payload() {
    assert_eq!(kitty_command("a=T", Some("QUJD")), "\x1b_Ga=T;QUJD\x1b\\");
    assert_eq!(kitty_command("a=d", None), "\x1b_Ga=d\x1b\\");
}

#[test]
fn animation_control_commands() {
    let mut ids = ImageIdCounter::new();
    let frames = vec![(vec![1u8, 2, 3, 4], 50u32)];
    let (_, anim) = animation_commands(&mut ids, &frames, 1, 1, 0, 0).unwrap();
    assert_eq!(delete_animation(&anim), "\x1b_Ga=d,d=I,i=1,q=2\x1b\\");
    assert_eq!(pause_animation(&anim), "\x1b_Ga=a,i=1,s=1,q=2\x1b\\");
    assert_eq!(resume_animation(&anim), "\x1b_Ga=a,i=1,s=3,q=2\x1b\\");
}

#[test]
fn animation_sends_base_frames_and_loop() {
    let mut ids = ImageIdCounter::new();
    let frames = vec![(b"ABC".to_vec(), 100u32), (b"xyz".to_vec(), 40u32)];
    let (cmds, anim) = animation_commands(&mut ids, &frames, 2, 3, 4, 5).unwrap();
    assert_eq!(anim.image_id, 1);
    assert_eq!(anim.frame_count, 2);
    assert!(anim.is_playing);
    assert_eq!(ids.next, 2);
    assert_eq!(
        cmds,
        vec![
            "\x1b_Ga=T,f=32,i=1,s=2,v=3,c=4,r=5,C=1,q=2,m=0;QUJD\x1b\\".to_string(),
            "\x1b_Ga=f,i=1,z=40,r=1,f=32,s=2,v=3,q=2,m=0;eHl6\x1b\\".to_string(),
            "\x1b_Ga=a,i=1,s=3,v=0,q=2\x1b\\".to_string(),
        ]
    );
}

#[test]
fn animation_of_no_frames_is_none() {
    let mut ids = ImageIdCounter::new();
    let frames: Vec<(Vec<u8>, u32)> = vec![];
    assert!(animation_commands(&mut ids, &frames, 1, 1, 0, 0).is_none());
    assert_eq!(ids.next, 1);
}

#[test]
fn large_payload_is_chunked() {
    let mut ids = ImageIdCounter::new();
    let frames = vec![(vec![0u8; 4000], 10u32)];
    let (cmds, _) = animation_commands(&mut ids, &frames, 1, 1, 0, 0).unwrap();
    // 4000 bytes encode to 5336 characters: two chunks, then the loop command.
    assert_eq!(cmds.len(), 3);
    assert!(cmds[0].contains(",m=1;"));
    assert!(cmds[1].starts_with("\x1b_Gm=0;"));
}

#[test]
fn text_input_goes_to_doc_search() {
    let mut app = small_app();
    let (taken, task) = app.handle_text_input(Some('x'), false);
    assert!(!taken);
    assert!(task.is_none());
    app.enter_doc_search();
    let (taken, task) = app.handle_text_input(Some('t'), false);
    assert!(taken);
    assert!(matches!(task, Some(Task::UpdateDocSearch)));
    assert_eq!(app.doc_search.doc_search_query, "t");
    let (taken, task) = app.handle_text_input(Some('u'), true);
    assert!(taken);
    assert!(matches!(task, Some(Task::UpdateDocSearch)));
    assert_eq!(app.doc_search.doc_search_query, "");
}
