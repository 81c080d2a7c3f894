use pyromaniac::admission::ServiceError;
use pyromaniac::client::{run_code, ExecutionRequest};
use pyromaniac::config::{Config, Environment, ProcessSupervisor};
use pyromaniac::language::Language;
use pyromaniac::run::RunError;
use pyromaniac::span::Span;

fn settings() -> Config {
    let env = Environment { resource_path: None, port: None, uid: None, gid: None };
    Config::init_from_env(env, 4, ProcessSupervisor::DirectLaunch).unwrap()
}

#[test]
fn request_takes_the_configured_limits() {
    let config = settings();
    let request = ExecutionRequest::new(
        Language::Python,
        "print(input())".to_string(),
        Some("42".to_string()),
        &config.runner_config,
    );
    assert_eq!(
        request,
        ExecutionRequest {
            lang: Language::Python,
            code: "print(input())".to_string(),
            input: "42".to_string(),
            compile_timeout: Span::from_secs(20),
            run_timeout: Span::from_secs(15),
        }
    );
}

#[test]
fn missing_input_is_empty() {
    let config = settings();
    let request =
        ExecutionRequest::new(Language::Sh, "true".to_string(), None, &config.runner_config);
    assert_eq!(request.input, "");
}

#[test]
fn answer_becomes_text() {
    assert_eq!(
        run_code(Some(Ok((b"hello world!\n".to_vec(), vec![])))),
        Ok(("hello world!\n".to_string(), String::new()))
    );
}

#[test]
fn invalid_output_fails_the_call() {
    assert_eq!(
        run_code(Some(Ok((vec![0xff], vec![])))),
        Err(ServiceError::Run(RunError::OutputUtf8Error))
    );
}

#[test]
fn guest_failure_is_handed_on() {
    assert_eq!(
        run_code(Some(Err(RunError::RunTimeout(Span::from_secs(15))))),
        Err(ServiceError::Run(RunError::RunTimeout(Span::from_secs(15))))
    );
    assert_eq!(
        run_code(Some(Err(RunError::CompileTimeout(Span::from_secs(20))))),
        Err(ServiceError::Run(RunError::CompileTimeout(Span::from_secs(20))))
    );
}

#[test]
fn missed_deadline_is_an_execution_timeout() {
    assert_eq!(run_code(None), Err(ServiceError::ExecutionTimeout));
}
