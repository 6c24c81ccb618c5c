use nanocron::job::Job;

fn owned(words: &[&str]) -> Vec<String> {
    words.iter().map(|word| word.to_string()).collect()
}

const MISSING: &str =
    "Missing both required arguments (schedule + command). Use --help to get more information.";
const EXPECTING: &str = "Expecting exactly 2 arguments: The schedule, and the command to execute. Use --help to get more information.";

#[test]
fn from_args_makes_the_job_of_two_arguments() {
    let job = Job::from_args(&owned(&["0 * * * * *", "/bin/echo every minute"])).unwrap();
    assert_eq!(job.schedule().expression(), "0 * * * * *");
    assert_eq!(job.command().line(), "/bin/echo every minute");
    assert_eq!(job.command().program(), "/bin/echo");
    assert_eq!(job.command().arguments(), &owned(&["every", "minute"]));
}

#[test]
fn from_args_without_arguments() {
    let error = Job::from_args(&[]).unwrap_err();
    assert_eq!(error.message, MISSING);
    assert_eq!(error.returncode, 1);
}

#[test]
fn from_args_with_one_argument() {
    let error = Job::from_args(&owned(&["* * * * * *"])).unwrap_err();
    assert_eq!(error.message, EXPECTING);
    assert_eq!(error.returncode, 1);
}

#[test]
fn from_args_with_three_or_more_arguments() {
    let three = Job::from_args(&owned(&["* * * * * *", "echo", "extra"])).unwrap_err();
    assert_eq!(three.message, EXPECTING);
    assert_eq!(three.returncode, 1);
    let five = Job::from_args(&owned(&["a", "b", "c", "d", "e"])).unwrap_err();
    assert_eq!(five.message, EXPECTING);
    assert_eq!(five.returncode, 1);
}

#[test]
fn from_args_counts_before_it_compiles() {
    let one = Job::from_args(&owned(&["not a schedule"])).unwrap_err();
    assert_eq!(one.message, EXPECTING);
    let three = Job::from_args(&owned(&["not a schedule", "echo 'open", "x"])).unwrap_err();
    assert_eq!(three.message, EXPECTING);
}

#[test]
fn from_args_with_an_invalid_schedule() {
    let error = Job::from_args(&owned(&["not a schedule", "echo hi"])).unwrap_err();
    assert_eq!(error.returncode, 1);
    assert!(error.message.contains("not a schedule"));
    let theirs = "not a schedule".parse::<cron::Schedule>().unwrap_err();
    assert_eq!(error.message, format!("Invalid schedule 'not a schedule': {:?}", theirs));
}

#[test]
fn from_args_looks_at_the_schedule_before_the_command() {
    let error = Job::from_args(&owned(&["not a schedule", "echo 'open"])).unwrap_err();
    assert!(error.message.starts_with("Invalid schedule 'not a schedule': "));
}

#[test]
fn from_args_with_a_command_that_cannot_be_split() {
    let error = Job::from_args(&owned(&["* * * * * *", "echo 'open"])).unwrap_err();
    assert_eq!(error.message, "Failed to properly split command 'echo 'open': ParseError");
    assert_eq!(error.returncode, 1);
}

#[test]
fn from_args_with_an_empty_command() {
    let error = Job::from_args(&owned(&["* * * * * *", ""])).unwrap_err();
    assert_eq!(error.message, "Failed to properly split command '': no program given");
    assert_eq!(error.returncode, 1);
}

#[test]
fn new_keeps_schedule_and_command() {
    let schedule = nanocron::schedule::Schedule::compile("0 0 * * * *").unwrap();
    let command = nanocron::command::Command::parse("date -u").unwrap();
    let job = Job::new(schedule, command);
    assert_eq!(job.schedule().expression(), "0 0 * * * *");
    assert_eq!(job.command().program(), "date");
    assert_eq!(job.command().arguments(), &owned(&["-u"]));
}
