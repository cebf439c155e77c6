use learning_rust::advanced_math::{factorial, fibonacci, gcd, is_prime};
use learning_rust::animals::{all_sounds, cats, dogs};
use learning_rust::api::{Cache, Connection, DbConn};
use learning_rust::collections_demo::simple_list::SimpleList;
use learning_rust::collections_demo::simple_map::SimpleMap;
use learning_rust::collections_demo::simple_set::SimpleSet;
use learning_rust::company::engineering::{backend, frontend};
use learning_rust::company::hr;
use learning_rust::core_crate::{Order, User};
use learning_rust::features::{greet, platform_info, AppConfig, TargetOs};
use learning_rust::formatter::{format_error, VERSION};
use learning_rust::io_simulation::file_reader::Reader as FileReader;
use learning_rust::io_simulation::network_reader::Reader as NetworkReader;
use learning_rust::logging::{format_log_message, Level};
use learning_rust::math;
use learning_rust::network::{client, info, server};
use learning_rust::restaurant::{serve, Appetizer, Breakfast};
use learning_rust::semver_demo::{explain_version_range, Version};
use learning_rust::service_crate::{OrderService, UserService};
use learning_rust::utils_crate::{format_user, validate_email};
use learning_rust::visibility_demo::{demonstrate, inner::fully_public};

#[test]
fn math_module() {
    assert_eq!(math::add(3, 5), 8);
    assert_eq!(math::subtract(10, 3), 7);
    assert_eq!(math::magic_number(1), 49);
}

#[test]
fn nested_modules_texts() {
    assert_eq!(dogs::bark(), "汪汪汪！");
    assert_eq!(dogs::description(), "狗会叫: 汪汪汪！");
    assert_eq!(cats::compare_with_dog(), "猫叫: 喵喵喵！，狗叫: 汪汪汪！");
    assert_eq!(all_sounds(), "汪汪汪！ 喵喵喵！");
    assert_eq!(server::status(), "状态: 服务器启动 完成");
    assert_eq!(client::connect(), "客户端连接 -> 服务器启动");
    assert_eq!(client::connect_absolute(), "客户端连接(绝对路径) -> 服务器启动");
    assert_eq!(info(), "网络信息: [服务器启动] [客户端连接 -> 服务器启动]");
    assert_eq!(frontend::build_ui(), "前端: 构建 UI");
    assert_eq!(backend::call_frontend(), "后端调用 -> 前端: 构建 UI");
    assert_eq!(backend::call_with_absolute(), "后端调用(绝对路径) -> 前端: 构建 UI");
    assert_eq!(hr::hire_engineer(), "HR: 招聘新员工, 为 [后端: 构建 API] 招聘");
}

#[test]
fn restaurant_visibility() {
    let meal = Breakfast::summer("黑麦");
    assert_eq!(meal.toast, "黑麦");
    assert_eq!(meal.fruit(), "桃子");
    assert_eq!(serve(), "厨房正在准备餐食...");
    let _ = [Appetizer::Soup, Appetizer::Salad, Appetizer::Bread];
}

#[test]
fn readers_connections_and_cache() {
    assert_eq!(FileReader::new("data.txt").read(), "从文件 [data.txt] 读取数据");
    assert_eq!(NetworkReader::new("https://example.com/api").read(), "从网络 [https://example.com/api] 读取数据");
    assert_eq!(Connection::new("users_db").query("SELECT * FROM users"), "[users_db] 执行查询: SELECT * FROM users");
    assert_eq!(DbConn::new("orders_db").db_name, "orders_db");
    let mut cache = Cache::new();
    cache.set("user:1", "Alice");
    cache.set("user:2", "Bob");
    cache.set("user:1", "Carol");
    assert_eq!(cache.get("user:1"), Some("Carol"));
    assert_eq!(cache.get("user:3"), None);
    assert_eq!(cache.len(), 2);
}

#[test]
fn visibility_lines() {
    assert_eq!(fully_public(), "我完全公有");
    assert_eq!(
        demonstrate(),
        vec![
            "crate_level: 我在整个 crate 内可见".to_string(),
            "parent_only: 我只对父模块 visibility_demo 可见".to_string(),
            "crate_wide: 我在整个 crate 内可见 (来自 inner)".to_string(),
            "specific_path: 我只对 visibility_demo 模块可见".to_string(),
            "fully_public: 我完全公有".to_string(),
        ]
    );
}

#[test]
fn simple_collections() {
    let mut list = SimpleList::new();
    list.add(1);
    list.add(-2);
    list.add(30);
    assert_eq!(list.display(), "1, -2, 30");
    let mut words: SimpleList<String> = SimpleList::new();
    assert_eq!(words.display(), "");
    words.add("a".to_string());
    words.add("b".to_string());
    assert_eq!(words.display(), "a, b");

    let mut map = SimpleMap::new();
    map.insert("name", "Rust");
    map.insert("version", "2021");
    map.insert("name", "Ferris");
    assert_eq!(map.get("name").map(|s| s.as_str()), Some("Ferris"));
    assert_eq!(map.len(), 2);

    let mut set = SimpleSet::new();
    assert!(set.insert("apple"));
    assert!(set.insert("banana"));
    assert!(!set.insert("apple"));
    assert!(set.contains("apple"));
    assert!(!set.contains("cherry"));
    assert_eq!(set.len(), 2);
}

#[test]
fn advanced_math_values() {
    assert_eq!(factorial(0), 1);
    assert_eq!(factorial(5), 120);
    assert_eq!(factorial(20), 2432902008176640000);
    assert_eq!(fibonacci(10), 55);
    assert_eq!(fibonacci(93), 12200160415121876738);
    assert!(is_prime(17));
    assert!(!is_prime(18));
    assert!(!is_prime(1));
    assert!(is_prime(2));
    assert!(is_prime(3));
    assert!(!is_prime(25));
    assert!(!is_prime(49));
    assert!(is_prime(4294967291));
    assert!(!is_prime(18446744073709551615));
    assert_eq!(gcd(48, 18), 6);
    assert_eq!(gcd(0, 7), 7);
    assert_eq!(gcd(7, 0), 7);
    assert_eq!(gcd(0, 0), 0);
}

#[test]
fn feature_dependent_values() {
    assert_eq!(greet("Rustacean", true), "你好, Rustacean! 欢迎学习 Rust Cargo Features!");
    assert_eq!(greet("Rustacean", false), "Hello, Rustacean!");
    let c = AppConfig::new("demo", true);
    assert_eq!(c.version, "0.1.0");
    assert_eq!(c.log_level.as_deref(), Some("INFO"));
    assert!(AppConfig::new("demo", false).log_level.is_none());
    assert_eq!(platform_info(TargetOs::Linux, true), "平台: Linux, 编译模式: Debug");
    assert_eq!(platform_info(TargetOs::Other, false), "平台: 其他操作系统, 编译模式: Release");
    assert_eq!(Level::Warn.as_str(), "WARN");
    assert_eq!(format_log_message("INFO", "启动"), "[INFO] 启动");
}

#[test]
fn workspace_users() {
    let u = User::new(1, "张三", "zhangsan@example.com");
    assert_eq!(u.display_name(), "张三 (ID: 1)");
    assert_eq!(
        format_user(&u),
        "┌─ 用户信息 ─────────────\n│ ID:    1\n│ 姓名:  张三\n│ 邮箱:  zhangsan@example.com\n└────────────────────────"
    );
    assert!(validate_email("a@b.c"));
    assert!(!validate_email("a@b"));
    assert!(!validate_email("a.b"));

    let mut service = UserService::new();
    assert_eq!(service.register("李四", "lisi@example.com").unwrap().id, 1);
    assert_eq!(service.register("王五", "wangwu@example.com").unwrap().id, 2);
    assert_eq!(service.register("赵六", "invalid-email").err().unwrap(), "无效的邮箱地址: invalid-email");
    assert_eq!(service.register("李四2", "lisi@example.com").err().unwrap(), "邮箱已注册: lisi@example.com");
    assert_eq!(service.find_user(2).unwrap().name, "王五");
    assert!(service.find_user(0).is_none());
    assert!(service.find_user(3).is_none());
    assert_eq!(service.list_users().len(), 2);
}

#[test]
fn semantic_versions() {
    let v = Version::new(1, 2, 3);
    assert_eq!(v.display(), "1.2.3");
    assert_eq!(v.bump_patch().display(), "1.2.4");
    assert_eq!(v.bump_minor().display(), "1.3.0");
    assert_eq!(v.bump_major().display(), "2.0.0");
    assert!(v.is_compatible_with(&v.bump_minor()));
    assert!(!v.is_compatible_with(&v.bump_major()));
    let zero = Version::new(0, 1, 2);
    assert!(zero.is_compatible_with(&Version::new(0, 1, 9)));
    assert!(!zero.is_compatible_with(&zero.bump_minor()));
    let tiny = Version::new(0, 0, 3);
    assert!(tiny.is_compatible_with(&Version::new(0, 0, 3)));
    assert!(!tiny.is_compatible_with(&Version::new(0, 0, 4)));
    assert!(!tiny.is_compatible_with(&tiny.bump_patch()));
    assert!(Version::new(1, 2, 3).is_compatible_with(&Version::new(1, 5, 0)));
    assert!(Version::new(0, 1, 0).is_compatible_with(&Version::new(0, 1, 5)));
    assert!(!Version::new(0, 1, 0).is_compatible_with(&Version::new(0, 2, 0)));
    assert_eq!(explain_version_range("~1.2.3"), ">=1.2.3 且 <1.3.0（只允许 patch 升级）");
    assert_eq!(explain_version_range("^0.0.3"), ">=0.0.3 且 <0.0.4（0.0.x 只匹配精确版本）");
    assert_eq!(explain_version_range("2.x"), "未知版本规格: 2.x");
}

#[test]
fn error_formatting() {
    assert_eq!(format_error("divide", "除数不能为零"), "[divide] 错误: 除数不能为零");
    assert_eq!(VERSION, "1.0.0");
}

#[test]
fn orders_numbered_and_found() {
    let mut service: OrderService<(String, u32)> = OrderService::new();
    {
        let o = service.create_order(1);
        o.add_item(("键盘".to_string(), 1));
        o.add_item(("鼠标".to_string(), 1));
    }
    service.create_order(2).add_item(("耳机".to_string(), 2));
    service.create_order(1);
    assert_eq!(service.get_order(1).unwrap().items.len(), 2);
    assert_eq!(service.get_order(2).unwrap().user_id, 2);
    assert_eq!(service.get_order(3).unwrap().id, 3);
    assert!(service.get_order(4).is_none());
    let ids: Vec<u64> = service.user_orders(1).iter().map(|o| o.id).collect();
    assert_eq!(ids, vec![1, 3]);
    let mut order: Order<u8> = Order::new(9, 4);
    order.add_item(5);
    assert_eq!((order.id, order.user_id, order.items.clone()), (9, 4, vec![5]));
}

#[test]
fn registered_addresses_stay_valid_and_distinct() {
    let mut service = UserService::new();
    service.register("A", "a@x.com").unwrap();
    assert!(service.register("B", "a@x.com").is_err());
    assert!(service.register("C", "nodot@x").is_err());
    service.register("D", "d@x.com").unwrap();
    let emails: Vec<&str> = service.list_users().iter().map(|u| u.email.as_str()).collect();
    assert_eq!(emails, vec!["a@x.com", "d@x.com"]);
    let ids: Vec<u64> = service.list_users().iter().map(|u| u.id).collect();
    assert_eq!(ids, vec![1, 2]);
}

#[test]
fn set_and_map_lengths() {
    let mut set = SimpleSet::new();
    assert!(set.insert("apple"));
    assert!(set.insert("banana"));
    assert!(!set.insert("apple"));
    assert_eq!(set.len(), 2);
    let mut map = SimpleMap::new();
    map.insert("name", "Rust");
    map.insert("version", "2021");
    assert_eq!(map.get("name").map(|s| s.as_str()), Some("Rust"));
    assert_eq!(map.len(), 2);
    let mut cache = Cache::new();
    cache.set("k", "1");
    cache.set("k", "2");
    assert_eq!(cache.len(), 1);
}
