use hutctl::config::{assert_correct_permissions, build_config_path, get_json_path, Service};
use hutctl::dates::{SECONDS_PER_DAY, SECONDS_PER_WEEK};
use hutctl::descriptor::{
    checklist_item_formatter, parse_difficulty, parse_task_descriptor, task_from_parts,
};
use hutctl::error::AppError;
use hutctl::git;
use hutctl::minecraft;
use hutctl::layout::{calculate_debug_area, calculate_editor_area, Area};
use hutctl::store;
use hutctl::text::{
    chain, chain3, contains_char, contains_text, join_lines, matches_at, same_text, split_at,
    split_at_line_breaks, starts_with,
};
use hutctl::types::{order_by_priority, Difficulty, DueDate, Priority, SubTask, Task, TaskId};

fn message(r: Result<impl std::fmt::Debug, AppError>) -> String {
    r.unwrap_err().to_text()
}

#[test]
fn text_helpers() {
    assert_eq!(split_at("a,b,,c", ','), ["a", "b", "", "c"]);
    assert_eq!(split_at("", ','), [""]);
    assert_eq!(split_at(",", ','), ["", ""]);
    assert_eq!(split_at_line_breaks("one\ntwo\n"), ["one", "two", ""]);
    assert_eq!(split_at("日本,語", ','), ["日本", "語"]);
    let lines = vec!["a".to_string(), "".to_string(), "c".to_string()];
    assert_eq!(join_lines(&lines), "a\n\nc");
    assert_eq!(join_lines(&Vec::new()), "");
    assert_eq!(join_lines(&vec!["only".to_string()]), "only");
    for text in ["", "\n", "a\nb", "\n\nx\n"] {
        assert_eq!(join_lines(&split_at_line_breaks(text)), text);
    }
    assert!(contains_char("a🔥b", '🔥'));
    assert!(!contains_char("ab", '🔥'));
    assert!(same_text("x", "x"));
    assert!(!same_text("x", "xy"));
    assert_eq!(chain("ab", "cd"), "abcd");
    assert_eq!(chain3("a", "b", "c"), "abc");
    assert!(starts_with("git:x", "git"));
    assert!(!starts_with("gi", "git"));
    assert!(!starts_with("xgit", "git"));
    assert!(contains_text("a/home/git:b", "/home/git"));
    assert!(contains_text("abc", ""));
    assert!(!contains_text("a/home/gi", "/home/git"));
    assert!(matches_at("hello", "llo", 2));
    assert!(!matches_at("hello", "llo", 3));
    assert!(!matches_at("hello", "llo", 9));
}

#[test]
fn parse_difficulty_by_name() {
    assert_eq!(parse_difficulty("Trivial").unwrap(), Difficulty::TRIVIAL);
    assert_eq!(parse_difficulty("Easy").unwrap(), Difficulty::EASY);
    assert_eq!(parse_difficulty("Medium").unwrap(), Difficulty::MEDIUM);
    assert_eq!(parse_difficulty("Hard").unwrap(), Difficulty::HARD);
    assert_eq!(
        message(parse_difficulty("easy")),
        "executing command failed: Incorrect difficulty value"
    );
}

#[test]
fn parse_a_full_descriptor() {
    let task =
        parse_task_descriptor("Buy milk,Easy,2 litres,2024-01-15T10:00:00Z,eggs;bread".to_string())
            .unwrap();
    assert!(task.id.is_empty());
    assert_eq!(task.text, "Buy milk");
    assert_eq!(task.task_type, "todo");
    assert_eq!(task.difficulty, Difficulty::EASY);
    assert_eq!(task.notes, Some("2 litres".to_string()));
    assert_eq!(task.date, Some(DueDate { unix_nanos: 1_705_312_800_000_000_000, offset_secs: 0 }));
    assert_eq!(
        task.checklist,
        Some(vec![
            SubTask { text: "eggs".to_string(), completed: false },
            SubTask { text: "bread".to_string(), completed: false },
        ])
    );
}

#[test]
fn parse_a_date_with_an_offset() {
    let task = parse_task_descriptor("x,Hard,,2024-01-15T10:00:00+02:00".to_string()).unwrap();
    assert_eq!(
        task.date,
        Some(DueDate { unix_nanos: 1_705_305_600_000_000_000, offset_secs: 7200 })
    );
    assert_eq!(task.notes, Some(String::new()));
    assert_eq!(task.checklist, None);
}

#[test]
fn parse_a_short_descriptor() {
    let task = parse_task_descriptor("Walk,Trivial".to_string()).unwrap();
    assert_eq!(task.text, "Walk");
    assert_eq!(task.difficulty, Difficulty::TRIVIAL);
    assert_eq!(task.notes, None);
    assert_eq!(task.date, None);
    assert_eq!(task.checklist, None);
}

#[test]
fn descriptor_errors() {
    assert_eq!(
        message(parse_task_descriptor("Walk".to_string())),
        "executing command failed: Incorrect input: <difficulty> required"
    );
    assert_eq!(
        message(parse_task_descriptor("Walk,Tricky,notes,never".to_string())),
        "executing command failed: Incorrect difficulty value"
    );
    assert_eq!(
        message(parse_task_descriptor("Walk,Easy,notes,never".to_string())),
        "executing command failed: Incorrect input: <due> must be an ISO 8601 date"
    );
    let parts = vec!["a".to_string(), "Easy".to_string(), "n".to_string(), "d".to_string()];
    assert!(task_from_parts(&parts, None).is_err());
    let due = DueDate { unix_nanos: 7, offset_secs: 0 };
    assert_eq!(task_from_parts(&parts, Some(due)).unwrap().date, Some(due));
    assert_eq!(task_from_parts(&parts[..3].to_vec(), Some(due)).unwrap().date, None);
}

#[test]
fn checklist_item_format() {
    assert_eq!(checklist_item_formatter("eggs"), "[] eggs");
}

#[test]
fn task_as_text() {
    let mut task = Task::default();
    task.text = "Buy milk".to_string();
    assert_eq!(task.to_text(), format!("{:48}Easy\n", "Buy milk"));
    task.notes = Some("2 litres".to_string());
    task.date = Some(DueDate { unix_nanos: 1_705_312_800_000_000_000, offset_secs: 0 });
    task.checklist = Some(vec![
        SubTask { text: "eggs".to_string(), completed: true },
        SubTask { text: "bread".to_string(), completed: false },
    ]);
    task.difficulty = Difficulty::HARD;
    assert_eq!(
        task.to_text(),
        format!("{:48}Hard\n2 litres\n2024-01-15\n\u{2705} eggs\n\u{2B1C} bread\n", "Buy milk")
    );
    task.text = "x".repeat(50);
    task.notes = None;
    task.checklist = None;
    task.date = Some(DueDate { unix_nanos: 1_705_276_799_000_000_000, offset_secs: 3600 });
    assert_eq!(task.to_text(), format!("{}Hard\n2024-01-15\n", "x".repeat(50)));
}

#[test]
fn priority_of_a_task() {
    let now = DueDate { unix_nanos: 1_700_000_000_000_000_000, offset_secs: 0 };
    let week = SECONDS_PER_WEEK as i128 * 1_000_000_000;
    assert_eq!(SECONDS_PER_DAY * 7, SECONDS_PER_WEEK);
    let mut task = Task::default();
    assert_eq!(task.priority_at(now), Priority::LOW);
    assert_eq!(task.get_priority(), Priority::LOW);
    task.date = Some(DueDate { unix_nanos: now.unix_nanos + week - 1, offset_secs: 3600 });
    assert_eq!(task.priority_at(now), Priority::HIGH);
    task.date = Some(DueDate { unix_nanos: now.unix_nanos + week, offset_secs: 0 });
    assert_eq!(task.priority_at(now), Priority::LOW);
    task.notes = Some("do it \u{1F525}".to_string());
    assert_eq!(task.priority_at(now), Priority::HIGH);
    assert_eq!(task.get_priority(), Priority::HIGH);
    task.notes = Some("\u{1F393} and \u{1F525}".to_string());
    assert_eq!(task.priority_at(now), Priority::MID);
    assert_eq!(task.get_priority(), Priority::MID);
    let mut old = Task::default();
    old.date = Some(DueDate { unix_nanos: 0, offset_secs: 0 });
    assert_eq!(old.get_priority(), Priority::HIGH);
}

#[test]
fn config_paths() {
    assert_eq!(build_config_path(Some("ann"), Some("/root")).unwrap(), "/home/ann/.config/hutctl");
    assert_eq!(build_config_path(None, Some("/root")).unwrap(), "/root/.config/hutctl");
    assert_eq!(build_config_path(None, None), None);
    assert_eq!(
        get_json_path(None, Some("/home/bob")).unwrap(),
        "/home/bob/.config/hutctl/habitica_tasks.json"
    );
    assert_eq!(get_json_path(None, None), None);
}

#[test]
fn permissions() {
    let mc = Service::Minecraft { operation: None };
    let init = git::Operation::Init { target: "x".to_string() };
    let git_service = Service::Git { operation: Some(init) };
    assert!(assert_correct_permissions(true, false, "ann", &mc).is_ok());
    assert!(assert_correct_permissions(false, true, "ann", &mc).is_ok());
    assert!(assert_correct_permissions(false, false, "minecraft", &mc).is_ok());
    assert!(assert_correct_permissions(false, false, "git", &git_service).is_ok());
    assert_eq!(
        message(assert_correct_permissions(false, false, "git", &mc)),
        "incorrect rights for the requested operation"
    );
    match assert_correct_permissions(false, false, "minecraft", &git_service) {
        Err(AppError::AclError(m)) => {
            assert_eq!(m, "Performing operation failed: Unauthorized access")
        },
        other => panic!("{:?}", other),
    }
}

#[test]
fn minecraft_rules() {
    assert!(minecraft::assert_service_installed(true).is_ok());
    assert_eq!(
        message(minecraft::assert_service_installed(false)),
        "running operation for service failed: Minecraft template service does not exist."
    );
    let target = "world".to_string();
    assert!(minecraft::assert_target_exists(&target, true).is_ok());
    assert_eq!(
        message(minecraft::assert_target_exists(&target, false)),
        "running operation for service failed: target: world does not exist. \
         Did you mean to call 'homectl minecraft init world'?"
    );
    assert!(minecraft::assert_target_is_new(&target, false).is_ok());
    assert_eq!(
        message(minecraft::assert_target_is_new(&target, true)),
        "running operation for service failed: initialization failed: world already exists"
    );
    assert_eq!(minecraft::target_dir("world"), "/home/minecraft/world");
    for op in ["start", "stop", "restart", "enable", "disable", "status"] {
        assert_eq!(minecraft::systemctl_unit(op, "world").unwrap(), "minecraft@world");
    }
    assert_eq!(
        message(minecraft::systemctl_unit("reload", "world")),
        "executing command failed: invalid systemctl operation: reload."
    );
    assert_eq!(minecraft::get_enabled_instance("world").unwrap(), "world");
    assert_eq!(
        message(minecraft::get_enabled_instance("")),
        "running operation for service failed: no service enabled."
    );
    assert_eq!(minecraft::get_target_or_enabled(Some("a".to_string()), "b").unwrap(), "a");
    assert_eq!(minecraft::get_target_or_enabled(Some("a".to_string()), "").unwrap(), "a");
    assert_eq!(minecraft::get_target_or_enabled(None, "b").unwrap(), "b");
    assert!(minecraft::get_target_or_enabled(None, "").is_err());
    assert!(minecraft::assert_enabled("a", "a").is_ok());
    assert_eq!(
        message(minecraft::assert_enabled("a", "b")),
        "running operation for service failed: cannot disable target: b, target is not enabled."
    );
    assert_eq!(minecraft::get_backup_dir(Some("ann"), Some("/bak")).unwrap(), "/bak/minecraft");
    assert_eq!(minecraft::get_backup_dir(Some("ann"), None).unwrap(), "/home/ann/minecraft");
    assert_eq!(
        message(minecraft::get_backup_dir(None, None)),
        "running operation for service failed: backup directory not defined."
    );
    let kinds: Vec<String> =
        ["snapshot", "release", "release"].iter().map(|k| k.to_string()).collect();
    assert_eq!(minecraft::first_release(&kinds), Some(1));
    assert_eq!(minecraft::first_release(&kinds[..1].to_vec()), None);
    assert!(minecraft::checksum_matches("abc123  server.jar\n", "abc123"));
    assert!(!minecraft::checksum_matches("abc124  server.jar\n", "abc123"));
    assert!(!minecraft::checksum_matches(" abc123", "abc123"));
}

#[test]
fn git_rules() {
    let passwd = "root:x:0:0:root:/root:/bin/bash\ngit:x:998:998::/home/git:/bin/sh\n";
    assert!(git::has_git_user(passwd));
    assert!(!git::has_git_user("root:x:0:0:root:/root:/bin/bash\nann:x:1:1::/home/git:/bin/sh"));
    assert!(!git::has_git_user("git:x:998:998::/srv/git:/bin/sh"));
    assert!(git::assert_service_installed(true, passwd).is_ok());
    assert_eq!(
        message(git::assert_service_installed(false, passwd)),
        "running operation for service failed: git root directory not found."
    );
    assert_eq!(
        message(git::assert_service_installed(true, "")),
        "running operation for service failed: invalid git user."
    );
    assert_eq!(git::repository_dir("a.git"), "/srv/git/a.git");
    assert_eq!(git::mirror_target("https://host/me/repo.git"), "repo.git");
    assert_eq!(git::mirror_target("repo.git"), "repo.git");
    assert_eq!(git::mirror_target("host/"), "");
    assert!(git::assert_repository_is_new("a", false).is_ok());
    assert_eq!(
        message(git::assert_repository_is_new("a", true)),
        "running operation for service failed: a already exists."
    );
    assert!(git::assert_repository_exists("a.git", true).is_ok());
    assert_eq!(
        message(git::assert_repository_exists("a.git", false)),
        "running operation for service failed: a.git does not exist."
    );
    assert_eq!(git::remote_address("ssh://forge", "a.git"), "ssh://forge/a.git");
}

fn named(id: &str, text: &str) -> Task {
    let mut t = Task::default();
    t.id = TaskId(id.to_string());
    t.text = text.to_string();
    t
}

fn names(tasks: &Vec<Task>) -> Vec<&str> {
    tasks.iter().map(|t| t.text.as_str()).collect()
}

#[test]
fn store_list_operations() {
    let mut tasks = vec![named("a", "A"), named("b", "B"), named("c", "C")];
    store::post_created_task(&mut tasks, named("d", "D"));
    assert_eq!(names(&tasks), ["D", "A", "B", "C"]);
    store::edit_task(&mut tasks, named("b", "B2"));
    assert_eq!(names(&tasks), ["D", "A", "B2", "C"]);
    store::edit_task(&mut tasks, named("e", "E"));
    assert_eq!(names(&tasks), ["E", "D", "A", "B2", "C"]);
    assert_eq!(store::remove_task(&mut tasks, &TaskId("d".to_string())).unwrap().text, "D");
    assert_eq!(names(&tasks), ["E", "A", "B2", "C"]);
    assert_eq!(
        message(store::remove_task(&mut tasks, &TaskId("d".to_string()))),
        "running operation for service failed: Task with ID: d not found"
    );
    store::reorder_task(&mut tasks, &TaskId("e".to_string()), 2).unwrap();
    assert_eq!(names(&tasks), ["A", "B2", "E", "C"]);
    store::reorder_task(&mut tasks, &TaskId("a".to_string()), 9).unwrap();
    assert_eq!(names(&tasks), ["B2", "E", "C", "A"]);
    assert!(store::reorder_task(&mut tasks, &TaskId("x".to_string()), 0).is_err());
    assert_eq!(names(&tasks), ["B2", "E", "C", "A"]);
}

#[test]
fn editor_popup_area() {
    assert_eq!(calculate_editor_area(120, 40), Area { x: 25, y: 13, width: 70, height: 20 });
    assert_eq!(calculate_editor_area(60, 30), Area { x: 0, y: 10, width: 70, height: 15 });
    assert_eq!(calculate_editor_area(180, 60), Area { x: 55, y: 20, width: 70, height: 30 });
    assert_eq!(calculate_editor_area(300, 90), Area { x: 95, y: 30, width: 110, height: 45 });
    assert_eq!(calculate_debug_area(120, 40), Area { x: 90, y: 30, width: 20, height: 6 });
}

#[test]
fn tasks_by_falling_priority() {
    let now = DueDate { unix_nanos: 1_700_000_000_000_000_000, offset_secs: 0 };
    let plain = named("a", "plain");
    let mut urgent = named("b", "urgent");
    urgent.notes = Some("\u{1F525}".to_string());
    let mut learning = named("c", "learning");
    learning.notes = Some("\u{1F393}".to_string());
    let mut due = named("d", "due");
    due.date = Some(DueDate { unix_nanos: now.unix_nanos + 1, offset_secs: 0 });
    let later = named("e", "later");
    let tasks = vec![plain, urgent, learning, due, later];
    assert_eq!(order_by_priority(&tasks, now), [1, 3, 2, 0, 4]);
    assert_eq!(order_by_priority(&tasks[..1].to_vec(), now), [0]);
    assert!(order_by_priority(&Vec::new(), now).is_empty());
}
