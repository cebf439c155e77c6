use learning_rust::mocking::{
    FakeUserStore, MockNotificationService, NotificationService, RegistrationService, User, UserStore,
};

#[test]
fn test_fake_store_save_and_find() {
    let mut store = FakeUserStore::new();
    let user = User {
        id: 1,
        name: "Alice".to_string(),
        email: "alice@test.com".to_string(),
    };

    assert!(store.save(user.clone()).is_ok());
    assert_eq!(store.count(), 1);

    let found = store.find_by_id(1);
    assert_eq!(found, Some(&user));
}

#[test]
fn test_fake_store_find_by_email() {
    let mut store = FakeUserStore::new();
    store
        .save(User {
            id: 1,
            name: "Bob".to_string(),
            email: "bob@test.com".to_string(),
        })
        .unwrap();

    let found = store.find_by_email("bob@test.com");
    assert!(found.is_some());
    assert_eq!(found.unwrap().name, "Bob");

    assert!(store.find_by_email("unknown@test.com").is_none());
}

#[test]
fn test_fake_store_duplicate_email() {
    let mut store = FakeUserStore::new();
    store
        .save(User {
            id: 1,
            name: "Alice".to_string(),
            email: "same@test.com".to_string(),
        })
        .unwrap();

    let result = store.save(User {
        id: 2,
        name: "Bob".to_string(),
        email: "same@test.com".to_string(),
    });
    assert!(result.is_err());
    assert!(result.unwrap_err().contains("已被注册"));
}

#[test]
fn test_fake_store_delete() {
    let mut store = FakeUserStore::new();
    store
        .save(User {
            id: 1,
            name: "Alice".to_string(),
            email: "alice@test.com".to_string(),
        })
        .unwrap();

    assert!(store.delete(1).is_ok());
    assert_eq!(store.count(), 0);
    assert!(store.delete(1).is_err());
}

#[test]
fn test_mock_notification_records_calls() {
    let mut mock = MockNotificationService::new();

    mock.send_email("a@test.com", "标题1", "内容1").unwrap();
    mock.send_email("b@test.com", "标题2", "内容2").unwrap();
    mock.send_sms("13800000000", "验证码").unwrap();

    assert_eq!(mock.email_call_count(), 2);
    assert_eq!(mock.sms_call_count(), 1);

    let last_email = mock.last_email().unwrap();
    assert_eq!(last_email.0, "b@test.com");
    assert_eq!(last_email.1, "标题2");

    let last_sms = mock.last_sms().unwrap();
    assert_eq!(last_sms.0, "13800000000");
}

#[test]
fn test_mock_notification_failure() {
    let mut mock = MockNotificationService::new();
    mock.set_should_fail(true);

    let result = mock.send_email("a@test.com", "标题", "内容");
    assert!(result.is_err());

    let result = mock.send_sms("13800000000", "消息");
    assert!(result.is_err());

    assert_eq!(mock.email_call_count(), 0);
}

#[test]
fn test_registration_success() {
    let store = FakeUserStore::new();
    let notifier = MockNotificationService::new();
    let mut service = RegistrationService::new(store, notifier);

    let result = service.register(1, "Alice", "alice@test.com");
    assert!(result.is_ok());
    assert_eq!(service.user_count(), 1);
}

#[test]
fn test_registration_sends_email() {
    let store = FakeUserStore::new();
    let notifier = MockNotificationService::new();
    let mut service = RegistrationService::new(store, notifier);

    service.register(1, "Alice", "alice@test.com").unwrap();

    assert_eq!(service.notifier.email_call_count(), 1);
    let email = service.notifier.last_email().unwrap();
    assert_eq!(email.0, "alice@test.com");
    assert_eq!(email.1, "欢迎注册");
    assert!(email.2.contains("Alice"));
}

#[test]
fn test_registration_empty_name() {
    let store = FakeUserStore::new();
    let notifier = MockNotificationService::new();
    let mut service = RegistrationService::new(store, notifier);

    let result = service.register(1, "", "test@test.com");
    assert!(result.is_err());
    assert_eq!(result.unwrap_err(), "用户名不能为空");
    assert_eq!(service.user_count(), 0);
}

#[test]
fn test_registration_invalid_email() {
    let store = FakeUserStore::new();
    let notifier = MockNotificationService::new();
    let mut service = RegistrationService::new(store, notifier);

    let result = service.register(1, "Alice", "invalid-email");
    assert!(result.is_err());
    assert_eq!(result.unwrap_err(), "邮箱格式不正确");
}

#[test]
fn test_registration_duplicate_email() {
    let store = FakeUserStore::new();
    let notifier = MockNotificationService::new();
    let mut service = RegistrationService::new(store, notifier);

    service.register(1, "Alice", "same@test.com").unwrap();
    let result = service.register(2, "Bob", "same@test.com");
    assert!(result.is_err());
    assert!(result.unwrap_err().contains("已被注册"));
}

#[test]
fn test_registration_notification_failure() {
    let store = FakeUserStore::new();
    let mut notifier = MockNotificationService::new();
    notifier.set_should_fail(true);
    let mut service = RegistrationService::new(store, notifier);

    let result = service.register(1, "Alice", "alice@test.com");
    assert!(result.is_err());
}

#[test]
fn store_messages_and_overwrite_by_id() {
    let mut store = FakeUserStore::new();
    let first = User { id: 7, name: "A".to_string(), email: "a@x.com".to_string() };
    store.save(first).unwrap();
    // the same id may change its own address
    let moved = User { id: 7, name: "A2".to_string(), email: "a2@x.com".to_string() };
    store.save(moved.clone()).unwrap();
    assert_eq!(store.count(), 1);
    assert_eq!(store.find_by_id(7), Some(&moved));
    assert!(store.find_by_email("a@x.com").is_none());
    let clash = User { id: 8, name: "B".to_string(), email: "a2@x.com".to_string() };
    assert_eq!(store.save(clash).unwrap_err(), "邮箱 a2@x.com 已被注册");
    assert_eq!(store.delete(42).unwrap_err(), "用户 42 不存在");
    assert!(store.find_by_id(8).is_none());
}

#[test]
fn registration_message_texts() {
    let mut service = RegistrationService::new(FakeUserStore::new(), MockNotificationService::new());
    service.register(3, "张三", "z@x.com").unwrap();
    let email = service.notifier.last_email().unwrap();
    assert_eq!(email.2, "亲爱的 张三，欢迎加入！");
    assert_eq!(service.register(4, "李四", "z@x.com").unwrap_err(), "邮箱 z@x.com 已被注册");
    assert_eq!(service.user_count(), 1);
    assert_eq!(service.notifier.sms_call_count(), 0);
}

#[test]
fn failed_notification_keeps_stored_user() {
    let mut notifier = MockNotificationService::new();
    notifier.set_should_fail(true);
    let mut service = RegistrationService::new(FakeUserStore::new(), notifier);
    assert_eq!(service.register(1, "Alice", "alice@test.com").unwrap_err(), "模拟：邮件发送失败");
    assert_eq!(service.user_count(), 1);
    assert_eq!(service.notifier.email_call_count(), 0);
    service.notifier.set_should_fail(false);
    assert_eq!(service.notifier.send_sms("1", "x"), Ok(()));
    assert_eq!(service.notifier.last_sms().unwrap().1, "x");
}
