use master_home::decode::{extract_text, ChatMessage, ChatResponse, Choice};

fn choice(content: Option<&str>) -> Choice {
    Choice {
        message: Some(ChatMessage {
            role: Some("assistant".to_string()),
            content: content.map(|c| c.to_string()),
        }),
    }
}

#[test]
fn even_candidates_are_joined_in_order() {
    let choices = vec![
        choice(Some("zero ")),
        choice(None),
        choice(Some("two ")),
        Choice { message: None },
        choice(Some("four")),
    ];
    let r = ChatResponse { choices: Some(choices) };
    assert_eq!(extract_text(&r), "zero two four");
}

#[test]
fn absent_candidates_give_sentinel() {
    let r = ChatResponse { choices: None };
    assert_eq!(extract_text(&r), "No response content available.");
}

#[test]
fn empty_candidates_give_sentinel() {
    let r = ChatResponse { choices: Some(vec![]) };
    assert_eq!(extract_text(&r), "No response content available.");
}

#[test]
fn candidates_without_content_give_empty_text() {
    let r = ChatResponse { choices: Some(vec![choice(None), Choice { message: None }]) };
    assert_eq!(extract_text(&r), "");
}

#[test]
fn single_candidate() {
    let r = ChatResponse { choices: Some(vec![choice(Some("A cat on a sofa."))]) };
    assert_eq!(extract_text(&r), "A cat on a sofa.");
}
