use vade::message_router::{GenericMessage, MessageRouter};
use vade::traits::MessageConsumer;
use vade::VadeResult;

/// A consumer that counts the messages it accepted and replies with the
/// count and the last message's data.
pub struct TestMessageConsumer {
    message_count: u64,
}

impl TestMessageConsumer {
    pub fn new() -> TestMessageConsumer {
        TestMessageConsumer { message_count: 0 }
    }
}

impl MessageConsumer for TestMessageConsumer {
    fn handle_message(
        &mut self,
        _message_type: &str,
        message_data: &str,
    ) -> VadeResult<Option<String>> {
        self.message_count = self.message_count + 1;
        Ok(Option::from(format!(
            r###"{{ "type": "response", "data": {{ "count": {}, "lastMessage": {} }} }}"###,
            self.message_count, &message_data
        )))
    }
}

fn topics(names: &[&str]) -> Vec<String> {
    names.iter().map(|&x| String::from(x)).collect()
}

fn message(message_type: &str, data: &str) -> GenericMessage {
    GenericMessage { message_type: String::from(message_type), data: String::from(data) }
}

fn reply_with_count(count: u64, data: &str) -> String {
    format!(
        r###"{{ "type": "response", "data": {{ "count": {}, "lastMessage": {} }} }}"###,
        count, data
    )
}

#[test]
fn library_message_consumer_can_be_registered() {
    let mut router: MessageRouter<TestMessageConsumer> = MessageRouter::new();
    let tmc = TestMessageConsumer::new();
    router.register_message_consumer(topics(&["message1", "message2"]), Box::from(tmc));
}

#[test]
fn library_message_consumer_can_receive_messages() {
    let mut router: MessageRouter<TestMessageConsumer> = MessageRouter::new();
    let tmc = TestMessageConsumer::new();
    router.register_message_consumer(topics(&["message1", "message2"]), Box::from(tmc));

    // regular increase
    let responses = router.send_message(&message("message1", "{}")).unwrap();
    assert_eq!(responses[0].as_ref().unwrap(), &reply_with_count(1, "{}"));

    // regular increase
    let responses = router.send_message(&message("message1", "{}")).unwrap();
    assert_eq!(responses[0].as_ref().unwrap(), &reply_with_count(2, "{}"));

    // regular increase
    let responses = router.send_message(&message("message1", "{}")).unwrap();
    assert_eq!(responses[0].as_ref().unwrap(), &reply_with_count(3, "{}"));
}

#[test]
fn library_message_consumer_can_ignore_messages() {
    let mut router: MessageRouter<TestMessageConsumer> = MessageRouter::new();
    let tmc = TestMessageConsumer::new();
    router.register_message_consumer(topics(&["message1", "message2"]), Box::from(tmc));

    // regular increase
    let responses = router.send_message(&message("message1", "{}")).unwrap();
    assert_eq!(responses[0].as_ref().unwrap(), &reply_with_count(1, "{}"));

    // regular increase
    let responses = router.send_message(&message("message2", "{}")).unwrap();
    assert_eq!(responses[0].as_ref().unwrap(), &reply_with_count(2, "{}"));

    // no response as the type does not match, and no error either
    let responses = router.send_message(&message("message3", "{}")).unwrap();
    assert_eq!(responses.len(), 0);

    // counting resumes from the last accepted message
    let responses = router.send_message(&message("message2", "{}")).unwrap();
    assert_eq!(responses[0].as_ref().unwrap(), &reply_with_count(3, "{}"));
}

#[test]
fn message_consumer_with_empty_subscription_receives_nothing() {
    let mut router: MessageRouter<TestMessageConsumer> = MessageRouter::new();
    let tmc = TestMessageConsumer::new();
    router.register_message_consumer(topics(&[]), Box::from(tmc));
    let responses = router.send_message(&message("message1", "{}")).unwrap();
    assert_eq!(responses.len(), 0);
}

/// A consumer that fails on every message.
struct FailingConsumer;

impl MessageConsumer for FailingConsumer {
    fn handle_message(&mut self, _t: &str, _d: &str) -> VadeResult<Option<String>> {
        Err(vade::VadeError::new("consumer broke"))
    }
}

#[test]
fn message_consumer_error_fails_the_whole_send_naming_the_topic() {
    let mut router: MessageRouter<FailingConsumer> = MessageRouter::new();
    router.register_message_consumer(topics(&["message1"]), Box::from(FailingConsumer));
    let err = router.send_message(&message("message1", "{}")).unwrap_err();
    assert_eq!(
        err.message(),
        "could not run \"send_message\" for \"message1\"; consumer broke"
    );
}
