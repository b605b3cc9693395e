use rag_chatbot::chat_agent::ChatAgent;
use rag_chatbot::chat_agent::RagOutcome;
use rag_chatbot::chat_agent::Role;
use rag_chatbot::chat_agent::Topic;
use rag_chatbot::chat_agent::TurnAction;
use rag_chatbot::chat_agent::build_rag_prompt;
use rag_chatbot::chat_agent::collection_for;
use rag_chatbot::chat_agent::topic_of_label;
use rag_chatbot::vector_space::Document;

fn agent() -> ChatAgent {
    ChatAgent::new(
        "http://127.0.0.1:3000/v1".to_string(),
        "http://127.0.0.1:3000/v1/classifier".to_string(),
        "local-key".to_string(),
        "tinyllama:chat".to_string(),
        "postgres://localhost/vectors".to_string(),
        "http://localhost:11434".to_string(),
    )
}

#[test]
fn label_case_folding_reaches_the_topic() {
    assert_eq!(topic_of_label("movie"), Topic::Movie);
    assert_eq!(topic_of_label("MOVIE"), Topic::Movie);
    assert_eq!(topic_of_label("Book"), Topic::Book);
    assert_eq!(topic_of_label("a BoOk review"), Topic::Book);
    assert_eq!(topic_of_label("weather"), Topic::Other);
    assert_eq!(topic_of_label("other"), Topic::Other);
}

#[test]
fn collections_are_resolved_per_topic() {
    assert_eq!(collection_for(Topic::Book), "books_collection");
    assert_eq!(collection_for(Topic::Movie), "movies_collection");
}

#[test]
fn fresh_agent_memory_is_the_one_seeded_system_message() {
    let a = agent();
    assert_eq!(a.memory_len(), 1);
    let mem = a.memory_snapshot();
    assert_eq!(mem[0].role, Role::System);
    assert!(mem[0].content.contains("### System:"));
}

#[test]
fn grounded_turn_searches_on_the_label_and_leaves_memory_alone() {
    // The scenario of a high-confidence book query: the search term is the
    // classifier's label, not the user's query.
    let mut a = agent();
    let before = a.memory_snapshot();
    let action = a.start_turn("Tell me about Dune", "book");
    match action {
        TurnAction::Search { collection, term, k, db_url, embedder_url, model_name, dimensions } => {
            assert_eq!(collection, "books_collection");
            assert_eq!(term, "book");
            assert_eq!(k, 5);
            assert_eq!(db_url, "postgres://localhost/vectors");
            assert_eq!(embedder_url, "http://localhost:11434");
            assert_eq!(model_name, "tinyllama:chat");
            assert_eq!(dimensions, 2048);
        }
        TurnAction::Chat { .. } => panic!("a grounded topic must search"),
    }
    let after = a.memory_snapshot();
    assert_eq!(after.len(), before.len());
    assert_eq!(after[0].content, before[0].content);
}

#[test]
fn grounded_prompt_holds_the_documents_and_the_markers() {
    let a = agent();
    let docs = vec![
        Document::new("Dune is a novel by Frank Herbert.".to_string()),
        Document::new("It is set on the desert planet Arrakis.".to_string()),
        Document::new("It won the first Nebula Award.".to_string()),
    ];
    let out = a.after_search(&docs, "Tell me about Dune");
    match out {
        RagOutcome::Prompt(p) => {
            assert!(p.contains("Dune is a novel by Frank Herbert."));
            assert!(p.contains("It is set on the desert planet Arrakis."));
            assert!(p.contains("It won the first Nebula Award."));
            assert!(p.contains("### User:"));
            assert!(p.contains("### Assistant:"));
            assert!(p.contains("Tell me about Dune"));
            assert!(p.ends_with("### Assistant:"));
        }
        RagOutcome::Fallback(_) => panic!("three documents must ground the turn"),
    }
}

#[test]
fn empty_retrieval_returns_the_fixed_fallback() {
    let a = agent();
    let before = a.memory_snapshot();
    let docs: Vec<Document> = vec![];
    let out = a.after_search(&docs, "Tell me about Dune");
    match out {
        RagOutcome::Fallback(msg) => {
            assert_eq!(msg, "Sorry unable to resolve your query.");
        }
        RagOutcome::Prompt(_) => panic!("empty retrieval must fall back"),
    }
    assert_eq!(a.memory_snapshot().len(), before.len());
}

#[test]
fn free_chat_turn_grows_memory_by_exactly_two() {
    // The scenario of a low-topicality query over a fresh agent: memory ends
    // at length three, system then human then assistant.
    let mut a = agent();
    let action = a.start_turn("What's the weather?", "other");
    match action {
        TurnAction::Chat { messages } => {
            assert_eq!(messages.len(), 2);
            assert_eq!(messages[1].role, Role::Human);
            assert_eq!(messages[1].content, "What's the weather?");
        }
        TurnAction::Search { .. } => panic!("a free-chat topic must chat"),
    }
    let reply = a.finish_chat_turn("No idea, sorry.".to_string());
    assert_eq!(reply, "No idea, sorry.");
    let mem = a.memory_snapshot();
    assert_eq!(mem.len(), 3);
    assert_eq!(mem[0].role, Role::System);
    assert_eq!(mem[1].role, Role::Human);
    assert_eq!(mem[1].content, "What's the weather?");
    assert_eq!(mem[2].role, Role::Assistant);
    assert_eq!(mem[2].content, "No idea, sorry.");
}

#[test]
fn rag_prompt_layout_is_exact_for_one_document() {
    let docs = vec![Document::new("CTX".to_string())];
    let p = build_rag_prompt(&docs, "Q");
    assert!(p.starts_with("### System: "));
    assert!(p.contains("CTX\n\n### User:Q### Assistant:"));
}
