use learning_rust::calculator;
use learning_rust::user;

fn create_test_repo() -> user::UserRepository {
    let mut repo = user::UserRepository::new();
    repo.add_user(user::User::new("Alice", "alice@test.com", 30).unwrap());
    repo.add_user(user::User::new("Bob", "bob@test.com", 16).unwrap());
    repo.add_user(user::User::new("Charlie", "charlie@test.com", 25).unwrap());
    repo
}

#[test]
fn test_calculator_add_and_subtract() {
    let sum = calculator::add(10, 5);
    let diff = calculator::subtract(sum, 3);
    assert_eq!(diff, 12);
}

#[test]
fn test_calculator_expression() {
    let step1 = calculator::add(10, 5);
    let step2 = calculator::multiply(step1, 2);
    let result = calculator::subtract(step2, 3);
    assert_eq!(result, 27);
}

#[test]
fn test_create_valid_user() {
    let user = user::User::new("张三", "zhangsan@example.com", 28);
    assert!(user.is_ok());
    let user = user.unwrap();
    assert_eq!(user.name, "张三");
    assert_eq!(user.email, "zhangsan@example.com");
    assert_eq!(user.age, 28);
}

#[test]
fn test_create_user_empty_name() {
    let result = user::User::new("", "test@example.com", 25);
    assert!(result.is_err());
    assert_eq!(result.unwrap_err(), "用户名不能为空");
}

#[test]
fn test_create_user_invalid_email() {
    let result = user::User::new("Test", "invalid-email", 25);
    assert!(result.is_err());
    assert_eq!(result.unwrap_err(), "邮箱格式不正确");
}

#[test]
fn test_create_user_unreasonable_age() {
    let result = user::User::new("Test", "test@example.com", 200);
    assert!(result.is_err());
    assert_eq!(result.unwrap_err(), "年龄不合理");
}

#[test]
fn test_user_is_adult() {
    let adult = user::User::new("成年人", "a@b.com", 18).unwrap();
    assert!(adult.is_adult());

    let minor = user::User::new("未成年人", "a@b.com", 17).unwrap();
    assert!(!minor.is_adult());
}

#[test]
fn test_user_repository_with_setup() {
    let repo = create_test_repo();

    assert_eq!(repo.count(), 3);
    assert!(repo.find_by_name("Alice").is_some());
    assert!(repo.find_by_name("Unknown").is_none());
}

#[test]
fn test_user_repository_adults() {
    let repo = create_test_repo();
    let adults = repo.adults();

    assert_eq!(adults.len(), 2);
}

#[test]
fn test_user_repository_add_and_find() {
    let mut repo = user::UserRepository::new();
    assert_eq!(repo.count(), 0);

    let user = user::User::new("新用户", "new@test.com", 22).unwrap();
    repo.add_user(user.clone());

    assert_eq!(repo.count(), 1);
    let found = repo.find_by_name("新用户").unwrap();
    assert_eq!(found, &user);
}

#[test]
fn test_user_greeting() {
    let user = user::User::new("世界", "world@test.com", 20).unwrap();
    assert_eq!(user.greeting(), "你好，世界！");
}

#[test]
fn user_validation_order_and_boundaries() {
    // an empty name is reported before a bad address
    assert_eq!(user::User::new("", "bad", 999).unwrap_err(), "用户名不能为空");
    // a bad address is reported before a bad age
    assert_eq!(user::User::new("X", "bad", 999).unwrap_err(), "邮箱格式不正确");
    assert!(user::User::new("X", "@", 150).is_ok());
    assert_eq!(user::User::new("X", "@", 151).unwrap_err(), "年龄不合理");
}

#[test]
fn repository_finds_first_of_equal_names_and_keeps_adult_order() {
    let mut repo = user::UserRepository::new();
    repo.add_user(user::User::new("Same", "first@x.com", 40).unwrap());
    repo.add_user(user::User::new("Same", "second@x.com", 10).unwrap());
    repo.add_user(user::User::new("Other", "third@x.com", 18).unwrap());
    assert_eq!(repo.find_by_name("Same").unwrap().email, "first@x.com");
    let adults: Vec<&str> = repo.adults().iter().map(|u| u.email.as_str()).collect();
    assert_eq!(adults, vec!["first@x.com", "third@x.com"]);
}

#[test]
fn calculator_extremes() {
    assert_eq!(calculator::add(i32::MAX, i32::MIN), -1);
    assert_eq!(calculator::subtract(0, i32::MAX), -i32::MAX);
    assert_eq!(calculator::multiply(-46340, 46340), -2147395600);
}
