use habitat_sup::notify::{CategoryError, Notification, NotificationCategory, NotificationCreate};
use habitat_sup::types::{
    ApplicationEnvironment, BindingMode, PackageIdent, ProcessState, ServiceBind, ServiceGroup,
    ServiceSpec, Topology, UpdateStrategy,
};

#[test]
fn getters_give_defaults_when_absent() {
    let spec = ServiceSpec::new();
    assert_eq!(spec.get_group(), "default");
    assert_eq!(spec.get_bldr_url(), "https://bldr.habitat.sh");
    assert_eq!(spec.get_channel(), "stable");
    assert_eq!(spec.get_topology(), Topology::Standalone);
    assert_eq!(spec.get_update_strategy(), UpdateStrategy::NoUpdate);
    assert_eq!(spec.get_binding_mode(), BindingMode::Relaxed);
    assert_eq!(spec.get_desired_state(), ProcessState::Up);
    assert!(!spec.has_group());
    assert!(spec.get_binds().is_empty());
    let env = ApplicationEnvironment::new();
    assert_eq!(env.get_environment(), "default");
    assert_eq!(env.get_application(), "");
}

#[test]
fn setters_take_and_clear() {
    let mut ident = PackageIdent::new();
    ident.set_origin("core".to_string());
    ident.set_name("redis".to_string());
    assert!(ident.has_origin());
    assert_eq!(ident.get_name(), "redis");
    ident.mut_version().push_str("4.0.10");
    assert_eq!(ident.get_version(), "4.0.10");
    assert_eq!(ident.take_version(), "4.0.10");
    assert!(!ident.has_version());
    ident.clear_origin();
    assert_eq!(ident.get_origin(), "");

    let mut spec = ServiceSpec::new();
    spec.set_ident(ident);
    assert_eq!(spec.get_ident().get_name(), "redis");
    let mut group = ServiceGroup::new();
    group.set_service("redis".to_string());
    let mut bind = ServiceBind::new();
    bind.set_name("db".to_string());
    bind.set_service_group(group);
    spec.mut_binds().push(bind);
    assert_eq!(spec.get_binds().len(), 1);
    assert_eq!(spec.get_binds()[0].get_service_group().get_group(), "default");
    let binds = spec.take_binds();
    assert_eq!(binds.len(), 1);
    assert!(spec.get_binds().is_empty());
    spec.set_topology(Topology::Leader);
    assert_eq!(spec.get_topology(), Topology::Leader);
    spec.clear_topology();
    assert!(!spec.has_topology());
}

#[test]
fn notification_fields_and_route() {
    let mut n = Notification::new();
    n.set_origin_id(42);
    n.set_category(NotificationCategory::Error);
    n.set_data("{}".to_string());
    let mut c = NotificationCreate::new();
    assert!(!c.has_notification());
    c.set_notification(n);
    assert_eq!(c.route_key(), Some(42));
    assert_eq!(c.get_notification().get_category(), NotificationCategory::Error);
    assert_eq!(Notification::new().get_category(), NotificationCategory::Info);
}

#[test]
fn notification_category_text() {
    assert_eq!(NotificationCategory::from_str("INFO"), Ok(NotificationCategory::Info));
    assert_eq!(NotificationCategory::from_str("Error"), Ok(NotificationCategory::Error));
    assert_eq!(NotificationCategory::from_str("warn"), Err(CategoryError::BadNotificationCategory));
    assert_eq!(NotificationCategory::Error.to_string(), "error");
    assert_eq!(NotificationCategory::from_i32(2), Some(NotificationCategory::Error));
    assert_eq!(NotificationCategory::from_i32(3), None);
    assert_eq!(NotificationCategory::Info.value(), 1);
}

#[test]
fn notification_category_default() {
    assert_eq!(NotificationCategory::default(), NotificationCategory::Info);
}

#[test]
fn required_fields_make_a_message_initialized() {
    let mut group = ServiceGroup::new();
    assert!(!group.is_initialized());
    group.set_service("redis".to_string());
    assert!(group.is_initialized());
    let mut env = ApplicationEnvironment::new();
    env.set_environment("prod".to_string());
    group.set_application_environment(env);
    assert!(!group.is_initialized());
    group.mut_application_environment().set_application("app".to_string());
    assert!(group.is_initialized());

    let mut bind = ServiceBind::new();
    bind.set_name("db".to_string());
    assert!(!bind.is_initialized());
    bind.set_service_group(group);
    assert!(bind.is_initialized());

    let mut spec = ServiceSpec::new();
    assert!(!spec.is_initialized());
    spec.set_ident(PackageIdent::new());
    assert!(spec.is_initialized());
    spec.mut_binds().push(ServiceBind::new());
    assert!(!spec.is_initialized());
    assert!(NotificationCreate::new().is_initialized());
}
