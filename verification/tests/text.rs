use webcodex::chars::{
    char_is_ascii_alphanumeric, char_is_ascii_space, char_is_control, char_is_white_space,
    char_to_ascii_lower,
};
use webcodex::decimal::{format_u32, parse_usize};
use webcodex::path::FsPath;
use webcodex::process::{
    best_effort_execute, execute_required, install_error_with_rollback, push_rollback_error,
    Journal, ProcessExecutor, ProcessInvocation, ProcessOutput,
};
use webcodex::text::{
    byte_len, chars_of, contains_text, eq_ignore_ascii_case, join, lines, split_ascii_whitespace,
    starts_with, strip_prefix, text_before, text_eq, trim,
};

const SAMPLES: [&str; 14] = [
    "",
    " ",
    "a",
    "a\n",
    "\r\n\r\n",
    "a\r\nb\rc\n\nd",
    "a\r",
    "  x | y |z ",
    "\u{a0}wide\u{3000}",
    "\u{1c}file\u{85}",
    "tab\tform\u{c}feed\u{b}vertical",
    "ünïcödé ß",
    "one two  three\n",
    "|",
];

#[test]
fn characters_follow_std() {
    for c in '\0'..=char::MAX {
        assert_eq!(char_is_white_space(c), c.is_whitespace(), "{c:?}");
        assert_eq!(char_is_control(c), c.is_control(), "{c:?}");
        assert_eq!(char_is_ascii_space(c), c.is_ascii_whitespace(), "{c:?}");
        assert_eq!(
            char_is_ascii_alphanumeric(c),
            c.is_ascii_alphanumeric(),
            "{c:?}"
        );
        assert_eq!(char_to_ascii_lower(c), c.to_ascii_lowercase(), "{c:?}");
    }
}

#[test]
fn trimming_splitting_and_joining_follow_std() {
    for sample in SAMPLES {
        assert_eq!(trim(sample), sample.trim(), "{sample:?}");
        assert_eq!(lines(sample), sample.lines().collect::<Vec<_>>(), "{sample:?}");
        assert_eq!(
            split_ascii_whitespace(sample),
            sample.split_ascii_whitespace().collect::<Vec<_>>(),
            "{sample:?}"
        );
        assert_eq!(
            text_before(sample, '|'),
            sample.split('|').next().unwrap(),
            "{sample:?}"
        );
        assert_eq!(byte_len(sample), sample.len());
        assert_eq!(chars_of(sample), sample.chars().collect::<Vec<_>>());
        for other in SAMPLES {
            assert_eq!(text_eq(sample, other), sample == other);
            assert_eq!(starts_with(sample, other), sample.starts_with(other));
            assert_eq!(
                strip_prefix(sample, other).as_deref(),
                sample.strip_prefix(other)
            );
            assert_eq!(
                eq_ignore_ascii_case(sample, other),
                sample.eq_ignore_ascii_case(other)
            );
        }
    }
    assert!(eq_ignore_ascii_case("aBc-Ü", "AbC-Ü"));
    assert!(!eq_ignore_ascii_case("ü", "Ü"));
    let parts: Vec<String> = SAMPLES.iter().map(|s| s.to_string()).collect();
    assert_eq!(join(&parts, "; "), parts.join("; "));
    assert_eq!(join(&vec![], "; "), "");
    assert!(contains_text(&parts, "a\r"));
    assert!(!contains_text(&parts, "b"));
}

#[test]
fn joined_words_and_lines_come_apart_again() {
    let words: Vec<String> = ["one", "zwei", "trois"].iter().map(|s| s.to_string()).collect();
    assert_eq!(split_ascii_whitespace(&join(&words, " ")), words);
    assert_eq!(lines(&join(&words, "\n")), words);
}

#[test]
fn numbers_follow_std() {
    for n in [0, 9, 10, 200, 16384, 4_294_967_295] {
        assert_eq!(format_u32(n), n.to_string());
        assert_eq!(parse_usize(&format_u32(n)), Some(n as usize));
    }
    for text in [
        "",
        "+",
        "-0",
        "+7",
        "007",
        "1 ",
        "1_000",
        "0x10",
        "18446744073709551615",
        "18446744073709551616",
        "٣",
    ] {
        assert_eq!(parse_usize(text), text.parse::<usize>().ok(), "{text}");
    }
}

#[test]
fn paths_follow_the_host() {
    let path = FsPath::new("/etc//init.d/./runner/");
    assert!(path.is_absolute());
    assert_eq!(
        path.components(),
        [FsPath::new("etc"), FsPath::new("init.d"), FsPath::new("runner")]
    );
    assert_eq!(path.file_name(), Some(FsPath::new("runner")));
    assert_eq!(FsPath::new("/a/..").file_name(), None);
    assert!(!FsPath::new("a/b").is_absolute());
    assert_eq!(FsPath::new("/a").join("b"), FsPath::new("/a/b"));
    assert_eq!(FsPath::new("/a/").join("b"), FsPath::new("/a/b"));
    assert_eq!(FsPath::new("/a").join("/b"), FsPath::new("/b"));
    assert_eq!(FsPath::new("").join("b"), FsPath::new("b"));
    assert!(FsPath::new("/a/b/../c").stands_in(&FsPath::new("/a/b/..")));
    assert!(!FsPath::new("/a/b").stands_in(&FsPath::new("/a/b")));
    assert!(!FsPath::new("/").stands_in(&FsPath::new("/")));

    assert_eq!(FsPath::new("/ü").to_str(), Some("/ü"));
    assert_eq!(FsPath::new("/ü").display(), "/ü");
    let odd = FsPath::from_bytes(vec![47, 255, 97]);
    assert_eq!(odd.to_str(), None);
    assert_eq!(odd.display(), "/\u{fffd}a");
}

struct Once(Option<Result<ProcessOutput, String>>);

impl ProcessExecutor for Once {
    fn execute(&mut self, _: &ProcessInvocation) -> Result<ProcessOutput, String> {
        self.0.take().unwrap()
    }
}

fn invocation() -> ProcessInvocation {
    ProcessInvocation {
        operation: "rc-service start".to_string(),
        program: FsPath::new("/sbin/rc-service"),
        args: vec![],
        unit: None,
        inherit_stdio: false,
    }
}

fn ended(success: bool) -> Result<ProcessOutput, String> {
    Ok(ProcessOutput {
        success,
        code: None,
        stdout: "out".to_string(),
        stderr: "\n why \n".to_string(),
    })
}

#[test]
fn failed_runs_say_why() {
    let run = |outcome: Result<ProcessOutput, String>| {
        execute_required(&mut Journal::new(Once(Some(outcome))), &invocation())
    };
    assert_eq!(run(ended(true)).unwrap().stdout, "out");
    assert_eq!(run(ended(false)).unwrap_err(), "rc-service start failed: why");
    assert_eq!(run(Err("not found".to_string())).unwrap_err(), "not found");

    let mut errors = vec!["first".to_string()];
    for outcome in [ended(true), ended(false), Err("gone".to_string())] {
        best_effort_execute(
            &mut Journal::new(Once(Some(outcome))),
            &invocation(),
            "start",
            &mut errors,
        );
    }
    push_rollback_error(&mut errors, "restore", "full".to_string());
    assert_eq!(
        errors,
        [
            "first",
            "start: rc-service start failed: why",
            "start: gone",
            "restore: full"
        ]
    );
    assert_eq!(
        install_error_with_rollback("it", "broke".to_string(), errors[..2].to_vec()),
        "installation failed for it: broke; rollback also encountered: first; start: rc-service start failed: why"
    );
    assert_eq!(
        install_error_with_rollback("it", "broke".to_string(), vec![]),
        "installation failed for it: broke"
    );
}
