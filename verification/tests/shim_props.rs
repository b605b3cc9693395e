use rag_chatbot::llm_server::build_completion_envelope;
use rag_chatbot::llm_server::check_status;
use rag_chatbot::llm_server::is_rag_request;
use rag_chatbot::llm_server::messages_prompt_tokens;
use rag_chatbot::llm_server::plan_completion;
use rag_chatbot::llm_server::ChatCompletions;
use rag_chatbot::llm_server::CompletionPlan;
use rag_chatbot::llm_server::Message;
use rag_chatbot::llm_server::OLLAMAChatModel;
use rag_chatbot::llm_server::OLLAMAChatModelError;

fn msg(role: &str, content: &str) -> Message {
    Message { role: role.to_string(), content: content.to_string() }
}

fn wordcount(s: &str) -> usize {
    s.split(' ').count()
}

#[test]
fn usage_total_is_prompt_plus_completion_wordcount() {
    let m = OLLAMAChatModel::default();
    let prompt = "Use this context to answer the question";
    let completion = "Here is the answer you wanted";
    let env = m.generate_envelope(prompt, completion.to_string(), 1700000000);
    assert_eq!(env.usage.prompt_tokens, wordcount(prompt));
    assert_eq!(env.usage.completion_tokens, wordcount(completion));
    assert_eq!(env.usage.total_tokens, wordcount(prompt) + wordcount(completion));
    assert_eq!(env.usage.total_tokens, 7 + 6);
}

#[test]
fn envelope_fields_are_derived_from_the_prompt_tokens() {
    let env = build_completion_envelope("assistant".to_string(), "a b c".to_string(), 12, 55);
    assert_eq!(env.id, "chatcmpl-12");
    assert_eq!(env.system_fingerprint, "fp_4470126fcb");
    assert_eq!(env.object, "chat.completion");
    assert_eq!(env.model, "gpt-3.5-turbo-0125");
    assert_eq!(env.created, 55);
    assert_eq!(env.choices.len(), 1);
    assert_eq!(env.choices[0].index, 0);
    assert_eq!(env.choices[0].finish_reason, "stop");
    assert_eq!(env.choices[0].message.role, "assistant");
    assert_eq!(env.choices[0].message.content, "a b c");
    assert_eq!(env.usage.prompt_tokens, 12);
    assert_eq!(env.usage.completion_tokens, 3);
    assert_eq!(env.usage.total_tokens, 15);
}

#[test]
fn same_input_and_clock_synthesize_identical_envelopes() {
    let m = OLLAMAChatModel::default();
    let e1 = m.generate_envelope("p q", "r s t".to_string(), 123);
    let e2 = m.generate_envelope("p q", "r s t".to_string(), 123);
    assert_eq!(e1.id, e2.id);
    assert_eq!(e1.object, e2.object);
    assert_eq!(e1.created, e2.created);
    assert_eq!(e1.model, e2.model);
    assert_eq!(e1.system_fingerprint, e2.system_fingerprint);
    assert_eq!(e1.choices.len(), e2.choices.len());
    assert_eq!(e1.choices[0].message.content, e2.choices[0].message.content);
    assert_eq!(e1.usage.total_tokens, e2.usage.total_tokens);
    // A later clock moves `created` alone.
    let e3 = m.generate_envelope("p q", "r s t".to_string(), 124);
    assert_eq!(e1.id, e3.id);
    assert_eq!(e1.system_fingerprint, e3.system_fingerprint);
    assert_ne!(e1.created, e3.created);
}

#[test]
fn multi_turn_prompt_tokens_sum_over_messages() {
    let messages = vec![msg("system", "a b"), msg("user", "c d e")];
    assert_eq!(messages_prompt_tokens(&messages), 2 + 3);
    let m = OLLAMAChatModel::default();
    let env = m.invoke_envelope(&messages, msg("assistant", "x y"), 9);
    assert_eq!(env.usage.prompt_tokens, 5);
    assert_eq!(env.usage.completion_tokens, 2);
    assert_eq!(env.usage.total_tokens, 7);
    assert_eq!(env.choices[0].message.role, "assistant");
}

#[test]
fn non_success_status_carries_code_and_message() {
    match check_status(503) {
        Err(OLLAMAChatModelError::HttpError { status_code, error_message }) => {
            assert_eq!(status_code, 503);
            assert_eq!(error_message, "Received non-200 response: 503");
        }
        _ => panic!("a non-success status must be the upstream error"),
    }
    assert!(check_status(200).is_ok());
}

#[test]
fn marker_routes_to_single_shot_generation() {
    let rag = ChatCompletions {
        messages: vec![msg(
            "user",
            "Use the following pieces of context to answer the question. CTX",
        )],
        model: "gpt-3.5-turbo-0125".to_string(),
        max_tokens: Some(64),
    };
    assert!(is_rag_request(&rag));
    match plan_completion(rag) {
        CompletionPlan::Generate { prompt, max_tokens } => {
            assert!(prompt.starts_with("Use the following pieces"));
            assert_eq!(max_tokens, Some(64));
        }
        CompletionPlan::Chat { .. } => panic!("the marker must route to generation"),
    }
}

#[test]
fn plain_chat_routes_to_the_multi_turn_operation() {
    let chat = ChatCompletions {
        messages: vec![msg("system", "be brief"), msg("user", "hello")],
        model: "gpt-3.5-turbo-0125".to_string(),
        max_tokens: None,
    };
    assert!(!is_rag_request(&chat));
    match plan_completion(chat) {
        CompletionPlan::Chat { messages, max_tokens } => {
            assert_eq!(messages.len(), 2);
            assert_eq!(messages[1].content, "hello");
            assert_eq!(max_tokens, None);
        }
        CompletionPlan::Generate { .. } => panic!("no marker, no generation route"),
    }
}

#[test]
fn backend_endpoints_and_requests_take_the_configured_shape() {
    let m = OLLAMAChatModel::new("llama".to_string(), "http://localhost:11434".to_string());
    assert_eq!(m.chat_url(), "http://localhost:11434/api/chat");
    assert_eq!(m.generate_url(), "http://localhost:11434/api/generate");
    let g = m.build_generate_request("P".to_string(), Some(10));
    assert_eq!(g.model, "llama");
    assert_eq!(g.prompt, "P");
    assert!(!g.stream);
    assert!(g.raw);
    assert_eq!(g.num_predict, Some(10));
    assert_eq!(g.top_k, 30);
    let c = m.build_chat_request(vec![msg("user", "hi")], None);
    assert_eq!(c.model, "llama");
    assert!(!c.stream);
    assert_eq!(c.num_predict, None);
    assert_eq!(c.messages.len(), 1);
    let d = OLLAMAChatModel::default();
    assert_eq!(d.model, "tinyllama:chat");
    assert_eq!(d.base_url, "http://localhost:11434");
}
