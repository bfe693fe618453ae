use vstd::prelude::*;
use vstd::utf8::{decode_utf8, valid_utf8};
use crate::command::{CommandLine, CommandSpec, pairs_view, plan_view, texts_view};
use crate::config::ChallengeDockerConfig;
use crate::text::{
    decimal_text,
    int_parse_error,
    is_digit,
    is_u64_text,
    is_white_space,
    trim_start_of,
    join_text,
    lines_of,
    parse_u64,
    strip_prefix_text,
    text_lines,
    trim_text,
    trimmed,
    u64_text,
    u64_value,
    unsigned_digits,
    utf8_error,
    utf8_string,
};

verus! {

/// `name` placed inside the directory `base`; a name that starts at the root
/// stands for itself.
pub open spec fn joined_path(base: Seq<char>, name: Seq<char>) -> Seq<char> {
    if name.len() > 0 && name[0] == '/' {
        name
    } else if base.len() == 0 || base.last() == '/' {
        base + name
    } else {
        base + "/"@ + name
    }
}

/// The path of `name` inside the directory `base`.
pub fn join_path(base: &str, name: &str) -> (r: String)
    ensures
        r@ == joined_path(base@, name@),
{
    let n = name.unicode_len();
    if n > 0 && name.get_char(0) == '/' {
        return String::from_str(name);
    }
    let k = base.unicode_len();
    if k == 0 || base.get_char(k - 1) == '/' {
        join_text(base, name)
    } else {
        let with_sep = join_text(base, "/");
        join_text(with_sep.as_str(), name)
    }
}

pub open spec fn manifest_path_of(dir: Seq<char>) -> Seq<char> {
    joined_path(dir, "FloatCTF.toml"@)
}

pub open spec fn compose_path_of(dir: Seq<char>) -> Seq<char> {
    joined_path(dir, "docker-compose.yml"@)
}

pub open spec fn attachment_path_of(dir: Seq<char>, name: Seq<char>) -> Seq<char> {
    joined_path(joined_path(dir, "attachments"@), name)
}

pub open spec fn dot_env_path_of(dir: Seq<char>) -> Seq<char> {
    joined_path(dir, ".env"@)
}

/// The compose project name of instance `id` of the challenge `name`.
pub open spec fn project_name_of(id: u64, name: Seq<char>) -> Seq<char> {
    "challenge-project-"@ + decimal_text(id as nat) + "-"@ + name
}

/// The main container name of instance `id` of the challenge `name`.
pub open spec fn container_name_of(name: Seq<char>, id: u64) -> Seq<char> {
    "challenge-"@ + name + "-"@ + decimal_text(id as nat)
}

pub open spec fn no_compose_text(name: Seq<char>) -> Seq<char> {
    "The "@ + name + " has no docker-compose.yml"@
}

pub open spec fn no_attachment_text(name: Seq<char>, attachment: Seq<char>) -> Seq<char> {
    "The "@ + name + " has no attachment: "@ + attachment
}

/// Whether the attachment at index `i` was found on disk.
pub open spec fn attachment_found(present: Seq<bool>, i: int) -> bool {
    0 <= i < present.len() && present[i]
}

/// `i` is the first declared attachment that was not found.
pub open spec fn is_first_missing(present: Seq<bool>, n: int, i: int) -> bool {
    &&& 0 <= i < n
    &&& !attachment_found(present, i)
    &&& forall|j: int| 0 <= j < i ==> attachment_found(present, j)
}

pub open spec fn all_found(present: Seq<bool>, n: int) -> bool {
    forall|i: int| 0 <= i < n ==> attachment_found(present, i)
}

pub open spec fn not_static_text() -> Seq<char> {
    "The challenge is not static flag"@
}

pub open spec fn flag_missing_text() -> Seq<char> {
    "FLAG not found in .env"@
}

pub open spec fn flag_key() -> Seq<char> {
    "FLAG="@
}

/// The flag that the lines from index `i` on define: the trimmed rest of the
/// first one that starts with `FLAG=`.
pub open spec fn flag_from(lines: Seq<Seq<char>>, i: int) -> Option<Seq<char>>
    decreases lines.len() - i,
{
    if i < 0 || i >= lines.len() {
        None
    } else if flag_key().is_prefix_of(lines[i]) {
        Some(trimmed(lines[i].subrange(flag_key().len() as int, lines[i].len() as int)))
    } else {
        flag_from(lines, i + 1)
    }
}

/// The flag that a `.env` text defines, if any.
pub open spec fn flag_in(content: Seq<char>) -> Option<Seq<char>> {
    flag_from(lines_of(content), 0)
}

pub open spec fn invalid_utf8_text(b: Seq<u8>) -> Seq<char> {
    "Invalid UTF-8 in output: "@ + utf8_error(b)
}

pub open spec fn bad_port_text(s: Seq<char>) -> Seq<char> {
    "Failed to parse port: "@ + int_parse_error(s)
}

/// The host port that an inspect output names: the output is decoded as UTF-8,
/// trimmed, and read as an unsigned decimal integer.
pub open spec fn port_result(out: Seq<u8>) -> Result<u64, Seq<char>> {
    if !valid_utf8(out) {
        Err(invalid_utf8_text(out))
    } else {
        let t = trimmed(decode_utf8(out));
        if is_u64_text(t) {
            Ok(u64_value(t) as u64)
        } else {
            Err(bad_port_text(t))
        }
    }
}

/// An inspect output that is empty, or holds nothing but white space, names no
/// port: reading it is an error, never a port of zero.
pub proof fn lemma_blank_output_is_no_port(out: Seq<u8>)
    requires
        valid_utf8(out),
        forall|i: int|
            0 <= i < decode_utf8(out).len() ==> is_white_space(#[trigger] decode_utf8(out)[i]),
    ensures
        port_result(out) is Err,
{
    lemma_trim_start_blank(decode_utf8(out));
    assert(trim_start_of(decode_utf8(out)).len() == 0);
    assert(trimmed(decode_utf8(out)).len() == 0);
}

/// An inspect output whose trimmed text holds a character that is not a decimal
/// digit (past one leading `+`) names no port: reading it is an error.
pub proof fn lemma_non_numeric_output_is_no_port(out: Seq<u8>, i: int)
    requires
        valid_utf8(out),
        0 <= i < unsigned_digits(trimmed(decode_utf8(out))).len(),
        !is_digit(unsigned_digits(trimmed(decode_utf8(out)))[i]),
    ensures
        port_result(out) is Err,
{
}

proof fn lemma_trim_start_blank(s: Seq<char>)
    requires
        forall|i: int| 0 <= i < s.len() ==> is_white_space(#[trigger] s[i]),
    ensures
        trim_start_of(s).len() == 0,
    decreases s.len(),
{
    if s.len() > 0 {
        assert(is_white_space(s[0]));
        let t = s.drop_first();
        assert forall|i: int| 0 <= i < t.len() implies is_white_space(#[trigger] t[i]) by {
            assert(t[i] == s[i + 1]);
        }
        lemma_trim_start_blank(t);
    }
}

/// `r` as plain values.
pub open spec fn result_view<T>(r: Result<T, String>) -> Result<T, Seq<char>> {
    match r {
        Ok(v) => Ok(v),
        Err(e) => Err(e@),
    }
}

pub open spec fn inspect_template() -> Seq<char> {
    "{{range $p, $conf := .NetworkSettings.Ports}}{{(index $conf 0).HostPort}}{{end}}"@
}

pub open spec fn line(
    program: Seq<char>,
    args: Seq<Seq<char>>,
    env: Seq<(Seq<char>, Seq<char>)>,
) -> CommandLine {
    CommandLine { program, args, env }
}

/// The invocations that check the toolchain: the runtime's version, the compose
/// tool's version, and the runtime's process list.
pub open spec fn env_check_lines() -> Seq<CommandLine> {
    seq![
        line("docker"@, seq!["--version"@], seq![]),
        line("docker-compose"@, seq!["--version"@], seq![]),
        line("docker"@, seq!["ps"@], seq![]),
    ]
}

pub open spec fn build_line(compose: Seq<char>) -> CommandLine {
    line("docker-compose"@, seq!["--file"@, compose, "build"@], seq![])
}

/// The environment overrides for starting an instance.
pub open spec fn up_env(dynamic: bool, flag: Seq<char>, id: u64) -> Seq<(Seq<char>, Seq<char>)> {
    if dynamic {
        seq![("FLAG"@, flag), ("ID"@, decimal_text(id as nat))]
    } else {
        seq![("ID"@, decimal_text(id as nat))]
    }
}

pub open spec fn up_line(
    compose: Seq<char>,
    project: Seq<char>,
    env: Seq<(Seq<char>, Seq<char>)>,
) -> CommandLine {
    line(
        "docker-compose"@,
        seq!["--file"@, compose, "--project-name"@, project, "up"@, "--detach"@],
        env,
    )
}

pub open spec fn inspect_line(container: Seq<char>) -> CommandLine {
    line("docker"@, seq!["inspect"@, "--format"@, inspect_template(), container], seq![])
}

pub open spec fn down_line(compose: Seq<char>, project: Seq<char>) -> CommandLine {
    line(
        "docker-compose"@,
        seq!["--file"@, compose, "--project-name"@, project, "down"@, "--volumes"@, "--timeout=1"@],
        seq![],
    )
}

fn text(s: &str) -> (r: String)
    ensures
        r@ == s@,
{
    String::from_str(s)
}

fn command(program: &str, args: Vec<String>, env: Vec<(String, String)>) -> (r: CommandSpec)
    ensures
        r@ == line(program@, texts_view(args@), pairs_view(env@)),
{
    CommandSpec { program: text(program), args, env }
}

/// The error for a manifest that could not be read, with the cause.
pub fn manifest_read_error(reason: &str) -> (r: String)
    ensures
        r@ == "Failed to read FloatCTF.toml: "@ + reason@,
{
    join_text("Failed to read FloatCTF.toml: ", reason)
}

/// The error for a manifest that could not be parsed, with the cause.
pub fn manifest_parse_error(reason: &str) -> (r: String)
    ensures
        r@ == "Failed to parse the FloatCTF.toml: "@ + reason@,
{
    join_text("Failed to parse the FloatCTF.toml: ", reason)
}

/// The error for a `.env` file that could not be read, with the cause.
pub fn dot_env_read_error(reason: &str) -> (r: String)
    ensures
        r@ == "Failed to read .env: "@ + reason@,
{
    join_text("Failed to read .env: ", reason)
}

/// A challenge instance: its configuration, where its files are, and the names
/// under which the orchestrator knows it.
#[derive(Debug, Clone)]
pub struct ChallengeDockerManager {
    pub challenge_docker_config: ChallengeDockerConfig,
    pub challenge_path: String,
    pub docker_compose_yml: String,
    pub docker_compose_project_name: String,
    pub main_container_name: String,
    pub id: u64,
}

impl ChallengeDockerManager {
    /// The compose path and the derived names agree with the directory, the
    /// challenge's name and the instance id.
    pub open spec fn wf(&self) -> bool {
        &&& self.docker_compose_yml@ == compose_path_of(self.challenge_path@)
        &&& self.docker_compose_project_name@ == project_name_of(
            self.id,
            self.challenge_docker_config.name@,
        )
        &&& self.main_container_name@ == container_name_of(
            self.challenge_docker_config.name@,
            self.id,
        )
    }

    /// The manifest file of the challenge in `challenge_path`.
    pub fn manifest_path(challenge_path: &str) -> (r: String)
        ensures
            r@ == manifest_path_of(challenge_path@),
    {
        join_path(challenge_path, "FloatCTF.toml")
    }

    /// The compose file of the challenge in `challenge_path`.
    pub fn compose_file_path(challenge_path: &str) -> (r: String)
        ensures
            r@ == compose_path_of(challenge_path@),
    {
        join_path(challenge_path, "docker-compose.yml")
    }

    /// Where the attachment `name` of the challenge in `challenge_path` lies.
    pub fn attachment_path(challenge_path: &str, name: &str) -> (r: String)
        ensures
            r@ == attachment_path_of(challenge_path@, name@),
    {
        let dir = join_path(challenge_path, "attachments");
        join_path(dir.as_str(), name)
    }

    /// The compose project name of instance `id` of the challenge `name`.
    pub fn project_name(id: u64, name: &str) -> (r: String)
        ensures
            r@ == project_name_of(id, name@),
    {
        let digits = u64_text(id);
        let s = join_text("challenge-project-", digits.as_str());
        let s = join_text(s.as_str(), "-");
        join_text(s.as_str(), name)
    }

    /// The main container name of instance `id` of the challenge `name`.
    pub fn container_name(name: &str, id: u64) -> (r: String)
        ensures
            r@ == container_name_of(name@, id),
    {
        let digits = u64_text(id);
        let s = join_text("challenge-", name);
        let s = join_text(s.as_str(), "-");
        join_text(s.as_str(), digits.as_str())
    }

    /// Makes the instance `id` of the challenge in `challenge_path` whose manifest
    /// gave `config`. `compose_present` tells whether the compose file exists, and
    /// `attachments_present[i]` whether the i-th declared attachment exists (an
    /// index past its end counts as absent). Fails on a missing compose file, then
    /// on the first missing attachment.
    pub fn new(
        challenge_path: String,
        id: u64,
        config: ChallengeDockerConfig,
        compose_present: bool,
        attachments_present: &Vec<bool>,
    ) -> (r: Result<Self, String>)
        ensures
            r is Ok <==> compose_present && all_found(
                attachments_present@,
                config.attachments@.len() as int,
            ),
            !compose_present ==> (r matches Err(e) && e@ == no_compose_text(config.name@)),
            compose_present && all_found(attachments_present@, config.attachments@.len() as int)
                ==> (r matches Ok(m) && m.wf() && m.challenge_docker_config == config
                && m.challenge_path == challenge_path && m.id == id),
            forall|i: int|
                compose_present && #[trigger] is_first_missing(
                    attachments_present@,
                    config.attachments@.len() as int,
                    i,
                ) ==> (r matches Err(e) && e@ == no_attachment_text(
                    config.name@,
                    config.attachments@[i]@,
                )),
    {
        if !compose_present {
            let m = join_text("The ", config.name.as_str());
            return Err(join_text(m.as_str(), " has no docker-compose.yml"));
        }
        let n = config.attachments.len();
        let mut i: usize = 0;
        while i < n
            invariant
                compose_present,
                n == config.attachments@.len(),
                0 <= i <= n,
                forall|j: int| 0 <= j < i ==> attachment_found(attachments_present@, j),
            decreases n - i,
        {
            if i >= attachments_present.len() || !attachments_present[i] {
                assert(is_first_missing(attachments_present@, n as int, i as int));
                let m = join_text("The ", config.name.as_str());
                let m = join_text(m.as_str(), " has no attachment: ");
                let r = join_text(m.as_str(), config.attachments[i].as_str());
                assert forall|k: int|
                    #[trigger] is_first_missing(attachments_present@, n as int, k) implies k
                    == i by {
                    if k < i {
                    } else if k > i {
                        assert(attachment_found(attachments_present@, i as int));
                    }
                }
                return Err(r);
            }
            i = i + 1;
        }
        assert(all_found(attachments_present@, n as int));
        let docker_compose_yml = Self::compose_file_path(challenge_path.as_str());
        let docker_compose_project_name = Self::project_name(id, config.name.as_str());
        let main_container_name = Self::container_name(config.name.as_str(), id);
        Ok(ChallengeDockerManager {
            challenge_docker_config: config,
            challenge_path,
            docker_compose_yml,
            docker_compose_project_name,
            main_container_name,
            id,
        })
    }

    /// The invocations that check that the toolchain is usable, in order: the
    /// runtime's version, the compose tool's version, and the runtime's process
    /// list (which needs the permission to talk to it). Run as a plan, the
    /// first failure ends the check.
    pub fn check_docker_env() -> (r: Vec<CommandSpec>)
        ensures
            plan_view(r@) == env_check_lines(),
    {
        let a_args = vec![text("--version")];
        assert(texts_view(a_args@) =~= seq!["--version"@]);
        let a = command("docker", a_args, Vec::new());
        let b_args = vec![text("--version")];
        assert(texts_view(b_args@) =~= seq!["--version"@]);
        let b = command("docker-compose", b_args, Vec::new());
        let c_args = vec![text("ps")];
        assert(texts_view(c_args@) =~= seq!["ps"@]);
        let c = command("docker", c_args, Vec::new());
        let r = vec![a, b, c];
        assert(pairs_view(Seq::<(String, String)>::empty()) =~= seq![]);
        assert(plan_view(r@) =~= env_check_lines());
        r
    }

    /// The invocation that builds the challenge's images.
    pub fn build(&self) -> (r: Vec<CommandSpec>)
        ensures
            plan_view(r@) == seq![build_line(self.docker_compose_yml@)],
    {
        let args = vec![text("--file"), self.docker_compose_yml.clone(), text("build")];
        assert(texts_view(args@) =~= seq!["--file"@, self.docker_compose_yml@, "build"@]);
        let c = command("docker-compose", args, Vec::new());
        let r = vec![c];
        assert(pairs_view(Seq::<(String, String)>::empty()) =~= seq![]);
        assert(plan_view(r@) =~= seq![build_line(self.docker_compose_yml@)]);
        r
    }

    /// The invocations that start the instance with `flag` and then ask for its
    /// published host port. The flag is handed over as `FLAG` only when the
    /// challenge's flag is dynamic; the instance id is always handed over as `ID`.
    /// The output of the plan goes to `parse_port`.
    pub fn up(&self, flag: String) -> (r: Vec<CommandSpec>)
        ensures
            plan_view(r@) == seq![
                up_line(
                    self.docker_compose_yml@,
                    self.docker_compose_project_name@,
                    up_env(self.challenge_docker_config.is_dynamic_flag, flag@, self.id),
                ),
                inspect_line(self.main_container_name@),
            ],
    {
        let mut env: Vec<(String, String)> = Vec::new();
        if self.challenge_docker_config.is_dynamic_flag {
            env.push((text("FLAG"), flag));
        }
        env.push((text("ID"), u64_text(self.id)));
        assert(pairs_view(env@) =~= up_env(
            self.challenge_docker_config.is_dynamic_flag,
            flag@,
            self.id,
        ));
        let args = vec![
            text("--file"),
            self.docker_compose_yml.clone(),
            text("--project-name"),
            self.docker_compose_project_name.clone(),
            text("up"),
            text("--detach"),
        ];
        assert(texts_view(args@) =~= seq![
            "--file"@,
            self.docker_compose_yml@,
            "--project-name"@,
            self.docker_compose_project_name@,
            "up"@,
            "--detach"@,
        ]);
        let start = command("docker-compose", args, env);
        let inspect_args = vec![
            text("inspect"),
            text("--format"),
            text("{{range $p, $conf := .NetworkSettings.Ports}}{{(index $conf 0).HostPort}}{{end}}"),
            self.main_container_name.clone(),
        ];
        assert(texts_view(inspect_args@) =~= seq![
            "inspect"@,
            "--format"@,
            inspect_template(),
            self.main_container_name@,
        ]);
        let inspect = command("docker", inspect_args, Vec::new());
        let r = vec![start, inspect];
        assert(pairs_view(Seq::<(String, String)>::empty()) =~= seq![]);
        assert(plan_view(r@) =~= seq![
            up_line(
                self.docker_compose_yml@,
                self.docker_compose_project_name@,
                up_env(self.challenge_docker_config.is_dynamic_flag, flag@, self.id),
            ),
            inspect_line(self.main_container_name@),
        ]);
        r
    }

    /// The host port named by the output of the inspect invocation: decoded as
    /// UTF-8, trimmed, and read as an unsigned integer. Empty or non-numeric text
    /// is an error.
    pub fn parse_port(output: Vec<u8>) -> (r: Result<u64, String>)
        ensures
            result_view(r) == port_result(output@),
    {
        match utf8_string(output) {
            Err(e) => Err(join_text("Invalid UTF-8 in output: ", e.as_str())),
            Ok(s) => {
                let t = trim_text(s.as_str());
                match parse_u64(t.as_str()) {
                    Ok(n) => Ok(n),
                    Err(e) => Err(join_text("Failed to parse port: ", e.as_str())),
                }
            },
        }
    }

    /// What starting an instance yields, from the outcome of the plan of `up`:
    /// its first error unchanged, otherwise the port that the inspect output names.
    pub fn up_result(outcome: Result<Vec<u8>, String>) -> (r: Result<u64, String>)
        ensures
            outcome matches Err(e) ==> r == Err::<u64, String>(e),
            outcome matches Ok(out) ==> result_view(r) == port_result(out@),
    {
        match outcome {
            Err(e) => Err(e),
            Ok(out) => Self::parse_port(out),
        }
    }

    /// The invocation that stops the instance and removes its volumes, with a
    /// one-second shutdown timeout.
    pub fn down(&self) -> (r: Vec<CommandSpec>)
        ensures
            plan_view(r@) == seq![
                down_line(self.docker_compose_yml@, self.docker_compose_project_name@),
            ],
    {
        let args = vec![
            text("--file"),
            self.docker_compose_yml.clone(),
            text("--project-name"),
            self.docker_compose_project_name.clone(),
            text("down"),
            text("--volumes"),
            text("--timeout=1"),
        ];
        assert(texts_view(args@) =~= seq![
            "--file"@,
            self.docker_compose_yml@,
            "--project-name"@,
            self.docker_compose_project_name@,
            "down"@,
            "--volumes"@,
            "--timeout=1"@,
        ]);
        let c = command("docker-compose", args, Vec::new());
        let r = vec![c];
        assert(pairs_view(Seq::<(String, String)>::empty()) =~= seq![]);
        assert(plan_view(r@) =~= seq![
            down_line(self.docker_compose_yml@, self.docker_compose_project_name@),
        ]);
        r
    }

    /// The `.env` file that holds a static flag; an error when the flag is dynamic.
    pub fn static_flag_file(&self) -> (r: Result<String, String>)
        ensures
            self.challenge_docker_config.is_dynamic_flag ==> (r matches Err(e) && e@
                == not_static_text()),
            !self.challenge_docker_config.is_dynamic_flag ==> (r matches Ok(p) && p@
                == dot_env_path_of(self.challenge_path@)),
    {
        if self.challenge_docker_config.is_dynamic_flag {
            return Err(text("The challenge is not static flag"));
        }
        Ok(join_path(self.challenge_path.as_str(), ".env"))
    }

    /// The static flag that the `.env` text `dot_env` defines: the trimmed rest of
    /// its first line that starts with `FLAG=`. An error when the flag is dynamic,
    /// whatever the text, and when no line defines it.
    pub fn get_static_flag(&self, dot_env: &str) -> (r: Result<String, String>)
        ensures
            self.challenge_docker_config.is_dynamic_flag ==> (r matches Err(e) && e@
                == not_static_text()),
            !self.challenge_docker_config.is_dynamic_flag && flag_in(dot_env@) is Some
                ==> (r matches Ok(v) && Some(v@) == flag_in(dot_env@)),
            !self.challenge_docker_config.is_dynamic_flag && flag_in(dot_env@) is None
                ==> (r matches Err(e) && e@ == flag_missing_text()),
    {
        if self.challenge_docker_config.is_dynamic_flag {
            return Err(text("The challenge is not static flag"));
        }
        let lines = text_lines(dot_env);
        let ghost ls = lines_of(dot_env@);
        let n = lines.len();
        let mut i: usize = 0;
        while i < n
            invariant
                !self.challenge_docker_config.is_dynamic_flag,
                n == lines@.len(),
                n == ls.len(),
                ls == lines_of(dot_env@),
                forall|j: int| 0 <= j < n ==> #[trigger] lines@[j]@ == ls[j],
                0 <= i <= n,
                flag_from(ls, 0) == flag_from(ls, i as int),
            decreases n - i,
        {
            proof {
                reveal_strlit("FLAG=");
            }
            match strip_prefix_text(lines[i].as_str(), "FLAG=") {
                Some(rest) => {
                    return Ok(trim_text(rest.as_str()));
                },
                None => {},
            }
            i = i + 1;
        }
        Err(text("FLAG not found in .env"))
    }
}

} // verus!
