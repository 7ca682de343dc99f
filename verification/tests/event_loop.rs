use frame::error::BridgeError;
use frame::event_loop::{ControlFlow, LoopAction, LoopEvent, LoopState, NativeLoop};
use frame::RuntimeMessage;

fn eval(script: &str) -> LoopEvent {
    LoopEvent::UserEvent(RuntimeMessage::Eval(script.to_string()))
}

#[test]
fn loop_starts_running() {
    let event_loop = NativeLoop::new();
    assert_eq!(event_loop.state(), LoopState::Running);
    assert!(event_loop.is_running());
    assert_eq!(event_loop.control_flow(), ControlFlow::Wait);
}

#[test]
fn eval_while_running_is_handed_out_for_evaluation() {
    let mut event_loop = NativeLoop::new();
    let action = event_loop.handle(eval("document.title='x'"));
    assert_eq!(action, LoopAction::Evaluate("document.title='x'".to_string()));
    assert_eq!(event_loop.state(), LoopState::Running);
}

#[test]
fn other_event_is_ignored() {
    let mut event_loop = NativeLoop::new();
    assert_eq!(event_loop.handle(LoopEvent::Other), LoopAction::Idle);
    assert_eq!(event_loop.state(), LoopState::Running);
    assert_eq!(event_loop.control_flow(), ControlFlow::Wait);
}

#[test]
fn window_close_moves_loop_to_exiting() {
    let mut event_loop = NativeLoop::new();
    assert_eq!(event_loop.handle(LoopEvent::WindowClose), LoopAction::Exit);
    assert_eq!(event_loop.state(), LoopState::Exiting);
    assert!(!event_loop.is_running());
    assert_eq!(event_loop.control_flow(), ControlFlow::Exit);
}

#[test]
fn no_user_event_is_applied_after_window_close() {
    let mut event_loop = NativeLoop::new();
    assert_eq!(event_loop.handle(eval("before()")), LoopAction::Evaluate("before()".to_string()));
    assert_eq!(event_loop.handle(LoopEvent::WindowClose), LoopAction::Exit);
    assert_eq!(event_loop.handle(eval("after()")), LoopAction::Idle);
    assert_eq!(event_loop.handle(LoopEvent::Other), LoopAction::Idle);
    assert_eq!(event_loop.handle(LoopEvent::WindowClose), LoopAction::Idle);
    assert_eq!(event_loop.state(), LoopState::Exiting);
}

#[test]
fn scripts_are_applied_in_posting_order() {
    let mut event_loop = NativeLoop::new();
    let events = vec![eval("a()"), LoopEvent::Other, eval("b()"), eval("c()")];
    let mut applied = Vec::new();
    for event in events {
        if let LoopAction::Evaluate(script) = event_loop.handle(event) {
            applied.push(script);
        }
    }
    assert_eq!(applied, vec!["a()".to_string(), "b()".to_string(), "c()".to_string()]);
}

#[test]
fn empty_script_is_still_evaluated() {
    let mut event_loop = NativeLoop::new();
    assert_eq!(event_loop.handle(eval("")), LoopAction::Evaluate(String::new()));
}

#[test]
fn evaluation_failure_is_reported_and_loop_keeps_running() {
    let mut event_loop = NativeLoop::new();
    let action = event_loop.handle(eval("broken("));
    assert_eq!(action, LoopAction::Evaluate("broken(".to_string()));
    let report = event_loop.evaluation_finished(Err("SyntaxError".to_string()));
    assert_eq!(report, Some(BridgeError::ScriptEvaluationFailure("SyntaxError".to_string())));
    assert_eq!(event_loop.state(), LoopState::Running);
    assert_eq!(event_loop.handle(eval("next()")), LoopAction::Evaluate("next()".to_string()));
}

#[test]
fn evaluation_success_reports_nothing() {
    let event_loop = NativeLoop::new();
    assert_eq!(event_loop.evaluation_finished(Ok(())), None);
    assert_eq!(event_loop.state(), LoopState::Running);
}
