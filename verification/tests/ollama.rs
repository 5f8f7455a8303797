use frippy::plugin::ExecutionStatus;
use frippy::plugins::ollama::{ErrorKind, Ollama, OllamaAction, OllamaReply, NUM_PREDICT};

fn words(ws: &[&str]) -> Vec<String> {
    ws.iter().map(|w| w.to_string()).collect()
}

#[test]
fn prompt() {
    let mut ollama = Ollama::new(
        "http://localhost:11434/api/generate".to_string(),
        "tinyllama".to_string(),
    );
    assert_eq!(ollama.url(), "http://localhost:11434/api/generate");
    let first = ollama.request(String::from("What color is the sky?"));
    assert_eq!(first.model, "tinyllama");
    assert_eq!(first.prompt, "What color is the sky?");
    assert!(first.context.is_empty());
    assert!(!first.stream);
    assert_eq!(first.options.num_predict, 200);
    // The server's answer, as it would come back.
    let answer = ollama.receive(Ok(OllamaReply {
        response: "Blue.\nMostly.".to_string(),
        context: vec![1, 2, 3],
    }));
    assert_eq!(answer, Ok("Blue.|Mostly.".to_string()));
    let second = ollama.request(String::from("What did I just ask?"));
    assert_eq!(second.prompt, "What did I just ask?");
    assert_eq!(second.context, vec![1, 2, 3]);
}

#[test]
fn failed_exchange_keeps_context() {
    let mut o = Ollama::new("u".to_string(), "m".to_string());
    o.receive(Ok(OllamaReply { response: String::new(), context: vec![9] })).unwrap();
    assert_eq!(o.receive(Err(ErrorKind::Download)), Err(ErrorKind::Download));
    assert_eq!(o.request("p".to_string()).context, vec![9]);
}

#[test]
fn clear_forgets_context() {
    let mut o = Ollama::new("u".to_string(), "m".to_string());
    o.receive(Ok(OllamaReply { response: String::new(), context: vec![4, 5] })).unwrap();
    match o.command(&words(&["/clear"])) {
        OllamaAction::Reply(s) => assert_eq!(s, "Cleared memory"),
        OllamaAction::Prompt(_) => panic!("expected a reply"),
    }
    assert!(o.request("p".to_string()).context.is_empty());
}

#[test]
fn command_prompts_with_joined_words() {
    let mut o = Ollama::new("u".to_string(), "m".to_string());
    match o.command(&words(&["why", "is", "it", "/clear"])) {
        OllamaAction::Prompt(req) => {
            assert_eq!(req.prompt, "why is it /clear");
            assert_eq!(req.options.num_predict, NUM_PREDICT);
        }
        OllamaAction::Reply(_) => panic!("expected a prompt"),
    }
}

#[test]
fn long_replies_are_cut() {
    let mut o = Ollama::new("u".to_string(), "m".to_string());
    let r = o.receive(Ok(OllamaReply { response: "z".repeat(1000), context: vec![] }));
    assert_eq!(r, Ok("z".repeat(412)));
    let r = o.receive(Ok(OllamaReply { response: "a\r\nb".to_string(), context: vec![] }));
    assert_eq!(r, Ok("a|b".to_string()));
}

#[test]
fn ollama_plugin_basics() {
    let o = Ollama::new("u".to_string(), "m".to_string());
    assert_eq!(o.execute(), ExecutionStatus::Done);
    assert_eq!(
        o.evaluate(),
        Err("Evaluation of commands is not implemented for ollama at this time".to_string())
    );
    assert_eq!(ErrorKind::Deserialize.message(), "Failed to deserialize reply");
    assert_eq!(ErrorKind::Download.message(), "A download error occured");
}
