use challenge_manager::{
    command_result, first_step, next_step, Category, ChallengeDockerConfig,
    ChallengeDockerManager, CommandOutcome, CommandSpec, Step,
};

fn comment_config(dynamic: bool) -> ChallengeDockerConfig {
    ChallengeDockerConfig {
        name: "comment".to_string(),
        author: "someone".to_string(),
        category: Category::Web,
        tags: vec!["php".to_string()],
        description: "leave a comment".to_string(),
        attachments: vec!["hint.txt".to_string()],
        is_dynamic_flag: dynamic,
        points: 100,
    }
}

fn comment_manager(dynamic: bool) -> ChallengeDockerManager {
    ChallengeDockerManager::new(
        "./challenges/comment".to_string(),
        1,
        comment_config(dynamic),
        true,
        &vec![true],
    )
    .unwrap()
}

/// Runs a plan against canned outcomes, one per invocation, as a runner would.
fn drive(plan: &[CommandSpec], outcomes: Vec<CommandOutcome>) -> (Result<Vec<u8>, String>, usize) {
    let mut outcomes = outcomes.into_iter();
    let mut ran = 0;
    let mut step = first_step(plan.len());
    loop {
        match step {
            Step::Finished(r) => return (r, ran),
            Step::Run(i) => {
                ran += 1;
                let outcome = outcomes.next().unwrap();
                let r = command_result(&plan[i].program, outcome);
                step = next_step(plan.len(), i, r);
            }
        }
    }
}

fn strings(v: &[&str]) -> Vec<String> {
    v.iter().map(|s| s.to_string()).collect()
}

#[test]
fn check_docker() {
    let plan = ChallengeDockerManager::check_docker_env();
    assert_eq!(plan.len(), 3);
    assert_eq!(plan[0].program, "docker");
    assert_eq!(plan[0].args, strings(&["--version"]));
    assert_eq!(plan[1].program, "docker-compose");
    assert_eq!(plan[1].args, strings(&["--version"]));
    assert_eq!(plan[2].program, "docker");
    assert_eq!(plan[2].args, strings(&["ps"]));
    let outcomes = vec![
        CommandOutcome::Success(b"Docker version 24.0.0".to_vec()),
        CommandOutcome::Success(b"docker-compose version 1.29.2".to_vec()),
        CommandOutcome::Success(b"CONTAINER ID   IMAGE".to_vec()),
    ];
    let (r, ran) = drive(&plan, outcomes);
    assert_eq!(ran, 3);
    if let Err(e) = r {
        panic!("Docker environment check failed: {}", e);
    }
}

#[test]
fn check_init() {
    let cdm = ChallengeDockerManager::new(
        "./challenges/comment".to_string(),
        1,
        comment_config(true),
        true,
        &vec![true],
    );
    if let Err(e) = cdm {
        panic!("Failed to  init the ChallengeDockerManager:{}", e);
    }
    let cdm = cdm.unwrap();
    println!("{:?}", cdm);
}

#[test]
fn check_build() {
    let cdm = comment_manager(true);
    let plan = cdm.build();
    assert_eq!(plan.len(), 1);
    assert_eq!(plan[0].program, "docker-compose");
    assert_eq!(
        plan[0].args,
        strings(&["--file", "./challenges/comment/docker-compose.yml", "build"])
    );
    assert!(plan[0].env.is_empty());
    let (r, _) = drive(&plan, vec![CommandOutcome::Success(Vec::new())]);
    r.unwrap();
}

#[test]
fn check_up() {
    let cdm = comment_manager(true);
    let flag = if cdm.challenge_docker_config.is_dynamic_flag {
        "flag{this_is_a_test_flag}".to_string()
    } else {
        cdm.clone().get_static_flag("FLAG=flag{static}\n").unwrap()
    };
    let plan = cdm.up(flag);
    assert_eq!(plan.len(), 2);
    assert_eq!(
        plan[0].args,
        strings(&[
            "--file",
            "./challenges/comment/docker-compose.yml",
            "--project-name",
            "challenge-project-1-comment",
            "up",
            "--detach",
        ])
    );
    assert_eq!(
        plan[0].env,
        vec![
            ("FLAG".to_string(), "flag{this_is_a_test_flag}".to_string()),
            ("ID".to_string(), "1".to_string()),
        ]
    );
    assert_eq!(plan[1].program, "docker");
    assert_eq!(
        plan[1].args,
        strings(&[
            "inspect",
            "--format",
            "{{range $p, $conf := .NetworkSettings.Ports}}{{(index $conf 0).HostPort}}{{end}}",
            "challenge-comment-1",
        ])
    );
    let (r, ran) = drive(
        &plan,
        vec![
            CommandOutcome::Success(Vec::new()),
            CommandOutcome::Success(b"32768\n".to_vec()),
        ],
    );
    assert_eq!(ran, 2);
    let port = ChallengeDockerManager::up_result(r).unwrap();
    assert_eq!(port, 32768);
    println!("{}", port);
}

#[test]
fn check_down() {
    let cdm = comment_manager(true);
    let plan = cdm.down();
    assert_eq!(plan.len(), 1);
    assert_eq!(plan[0].program, "docker-compose");
    assert_eq!(
        plan[0].args,
        strings(&[
            "--file",
            "./challenges/comment/docker-compose.yml",
            "--project-name",
            "challenge-project-1-comment",
            "down",
            "--volumes",
            "--timeout=1",
        ])
    );
    let (r, _) = drive(&plan, vec![CommandOutcome::Success(Vec::new())]);
    r.unwrap();
}

#[test]
fn check_static_flag() {
    let cdm = comment_manager(false);
    let flag = cdm
        .get_static_flag("ID=3\nFLAG=flag{static_one}\n")
        .unwrap();
    assert_eq!(flag, "flag{static_one}");
    println!("{}", flag)
}

#[test]
fn missing_attachment_fails_construction() {
    let mut config = comment_config(true);
    config.attachments = vec!["a.txt".to_string(), "b.txt".to_string(), "c.txt".to_string()];
    let r = ChallengeDockerManager::new("dir".to_string(), 2, config.clone(), true, &vec![true, false, false]);
    assert_eq!(r.unwrap_err(), "The comment has no attachment: b.txt");
    let r = ChallengeDockerManager::new("dir".to_string(), 2, config.clone(), true, &vec![true, true]);
    assert_eq!(r.unwrap_err(), "The comment has no attachment: c.txt");
    let r = ChallengeDockerManager::new("dir".to_string(), 2, config, true, &vec![true, true, true]);
    assert!(r.is_ok());
}

#[test]
fn missing_compose_file_fails_construction() {
    let r = ChallengeDockerManager::new("dir".to_string(), 2, comment_config(true), false, &vec![true]);
    assert_eq!(r.unwrap_err(), "The comment has no docker-compose.yml");
    let mut config = comment_config(true);
    config.attachments = Vec::new();
    let r = ChallengeDockerManager::new("dir".to_string(), 2, config, false, &Vec::new());
    assert_eq!(r.unwrap_err(), "The comment has no docker-compose.yml");
}

#[test]
fn no_attachments_needs_only_compose_file() {
    let mut config = comment_config(false);
    config.attachments = Vec::new();
    let m = ChallengeDockerManager::new("dir/".to_string(), 0, config, true, &Vec::new()).unwrap();
    assert_eq!(m.docker_compose_yml, "dir/docker-compose.yml");
    assert_eq!(m.docker_compose_project_name, "challenge-project-0-comment");
    assert_eq!(m.main_container_name, "challenge-comment-0");
}

#[test]
fn static_flag_is_trimmed_rest_of_first_flag_line() {
    let cdm = comment_manager(false);
    assert_eq!(cdm.get_static_flag("A=1\r\nFLAG=  flag{x} \r\nFLAG=other\n").unwrap(), "flag{x}");
    assert_eq!(cdm.get_static_flag("FLAG=").unwrap(), "");
    assert_eq!(cdm.get_static_flag("NOFLAG=1\n flag=2\n").unwrap_err(), "FLAG not found in .env");
    assert_eq!(cdm.get_static_flag("").unwrap_err(), "FLAG not found in .env");
    assert_eq!(
        cdm.static_flag_file().unwrap(),
        "./challenges/comment/.env"
    );
}

#[test]
fn dynamic_challenge_has_no_static_flag() {
    let cdm = comment_manager(true);
    assert_eq!(cdm.get_static_flag("FLAG=flag{x}\n").unwrap_err(), "The challenge is not static flag");
    assert_eq!(cdm.get_static_flag("").unwrap_err(), "The challenge is not static flag");
    assert_eq!(cdm.static_flag_file().unwrap_err(), "The challenge is not static flag");
}

#[test]
fn static_challenge_up_sets_only_id() {
    let m = ChallengeDockerManager::new("c".to_string(), 77, comment_config(false), true, &vec![true]).unwrap();
    let plan = m.up("flag{ignored}".to_string());
    assert_eq!(plan[0].env, vec![("ID".to_string(), "77".to_string())]);
}

#[test]
fn port_parsing() {
    assert_eq!(ChallengeDockerManager::parse_port(b"8080".to_vec()).unwrap(), 8080);
    assert_eq!(ChallengeDockerManager::parse_port(b"  443 \n".to_vec()).unwrap(), 443);
    assert_eq!(ChallengeDockerManager::parse_port(b"+80".to_vec()).unwrap(), 80);
    assert_eq!(
        ChallengeDockerManager::parse_port(b"18446744073709551615".to_vec()).unwrap(),
        u64::MAX
    );
    let e = ChallengeDockerManager::parse_port(Vec::new()).unwrap_err();
    assert!(e.starts_with("Failed to parse port: "));
    let e = ChallengeDockerManager::parse_port(b"\n".to_vec()).unwrap_err();
    assert!(e.starts_with("Failed to parse port: "));
    let e = ChallengeDockerManager::parse_port(b"80a".to_vec()).unwrap_err();
    assert!(e.starts_with("Failed to parse port: "));
    let e = ChallengeDockerManager::parse_port(b"-1".to_vec()).unwrap_err();
    assert!(e.starts_with("Failed to parse port: "));
    let e = ChallengeDockerManager::parse_port(b"18446744073709551616".to_vec()).unwrap_err();
    assert!(e.starts_with("Failed to parse port: "));
    let e = ChallengeDockerManager::parse_port(vec![0xff, 0x38]).unwrap_err();
    assert!(e.starts_with("Invalid UTF-8 in output: "));
}

#[test]
fn up_result_passes_errors_through() {
    let e = ChallengeDockerManager::up_result(Err("docker-compose failed: x".to_string()));
    assert_eq!(e.unwrap_err(), "docker-compose failed: x");
    assert_eq!(ChallengeDockerManager::up_result(Ok(b"49153\n".to_vec())).unwrap(), 49153);
    assert!(ChallengeDockerManager::up_result(Ok(Vec::new())).is_err());
}

#[test]
fn derived_names_keep_the_name_as_written() {
    let mut config = comment_config(true);
    config.name = "my chall!".to_string();
    let m = ChallengeDockerManager::new("x".to_string(), 12345, config, true, &vec![true]).unwrap();
    assert_eq!(m.docker_compose_project_name, "challenge-project-12345-my chall!");
    assert_eq!(m.main_container_name, "challenge-my chall!-12345");
    assert_eq!(
        ChallengeDockerManager::project_name(u64::MAX, "a"),
        "challenge-project-18446744073709551615-a"
    );
    assert_eq!(ChallengeDockerManager::container_name("b c", 0), "challenge-b c-0");
}

#[test]
fn comment_scenario() {
    let m = ChallengeDockerManager::new(
        "./challenges/comment".to_string(),
        1,
        comment_config(true),
        true,
        &vec![true],
    )
    .unwrap();
    assert_eq!(m.docker_compose_project_name, "challenge-project-1-comment");
    assert_eq!(m.main_container_name, "challenge-comment-1");
    assert_eq!(m.id, 1);
    assert_eq!(m.challenge_path, "./challenges/comment");
}

#[test]
fn first_failure_ends_a_plan() {
    let plan = ChallengeDockerManager::check_docker_env();
    let (r, ran) = drive(
        &plan,
        vec![
            CommandOutcome::Success(Vec::new()),
            CommandOutcome::LaunchFailed("No such file or directory".to_string()),
            CommandOutcome::Success(Vec::new()),
        ],
    );
    assert_eq!(ran, 2);
    assert_eq!(r.unwrap_err(), "Failed to execute docker-compose: No such file or directory");
    let (r, ran) = drive(
        &plan,
        vec![CommandOutcome::ExitFailed(b"permission denied".to_vec())],
    );
    assert_eq!(ran, 1);
    assert_eq!(r.unwrap_err(), "docker failed: permission denied");
}

#[test]
fn failure_messages() {
    assert_eq!(
        command_result("docker", CommandOutcome::ExitFailed(vec![b'x', 0xff])).unwrap_err(),
        "docker failed: x\u{fffd}"
    );
    assert_eq!(
        command_result("docker", CommandOutcome::Success(b"out".to_vec())).unwrap(),
        b"out".to_vec()
    );
    assert_eq!(
        challenge_manager::manifest_read_error("gone"),
        "Failed to read FloatCTF.toml: gone"
    );
    assert_eq!(
        challenge_manager::manifest_parse_error("bad"),
        "Failed to parse the FloatCTF.toml: bad"
    );
    assert_eq!(challenge_manager::dot_env_read_error("gone"), "Failed to read .env: gone");
}

#[test]
fn empty_plan_finishes_at_once() {
    match first_step(0) {
        Step::Finished(Ok(out)) => assert!(out.is_empty()),
        _ => panic!("an empty plan runs nothing"),
    }
    match next_step(2, 1, Ok(b"last".to_vec())) {
        Step::Finished(Ok(out)) => assert_eq!(out, b"last".to_vec()),
        _ => panic!("the last invocation ends the plan"),
    }
    match next_step(2, 0, Ok(Vec::new())) {
        Step::Run(i) => assert_eq!(i, 1),
        _ => panic!("the next invocation runs"),
    }
}

#[test]
fn paths_join_with_one_separator() {
    assert_eq!(challenge_manager::join_path("a", "b"), "a/b");
    assert_eq!(challenge_manager::join_path("a/", "b"), "a/b");
    assert_eq!(challenge_manager::join_path("", "b"), "b");
    assert_eq!(challenge_manager::join_path("a", "/etc/x"), "/etc/x");
    assert_eq!(ChallengeDockerManager::attachment_path("c", "hint.txt"), "c/attachments/hint.txt");
    assert_eq!(ChallengeDockerManager::manifest_path("c"), "c/FloatCTF.toml");
    assert_eq!(ChallengeDockerManager::compose_file_path("c"), "c/docker-compose.yml");
}

#[test]
fn category_names_round_trip() {
    for c in Category::all() {
        assert_eq!(Category::from_name(c.as_str()), Some(c));
    }
    assert_eq!(Category::Reverse.as_str(), "Reverse");
    assert_eq!(Category::from_name("web"), None);
    assert_eq!(Category::from_name("Crypto"), Some(Category::Crypto));
    assert_eq!(Category::all().len(), 5);
}
