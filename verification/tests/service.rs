use circus::config::{Config, ConfigVars};
use circus::queries::{task_list_query, task_update_query, SqlArg, TaskFilter, TaskUpdate};
use circus::status::TaskStatus;

fn vars() -> ConfigVars {
    ConfigVars {
        database_url: Some("postgres://db".to_string()),
        bind_addr: None,
        jwt_secret: Some("s3cret".to_string()),
        access_token_ttl_minutes: None,
        refresh_token_ttl_days: None,
        storage_dir: None,
        max_upload_mb: None,
        static_dir: None,
        bootstrap_admin_email: None,
        bootstrap_admin_password: None,
        bootstrap_admin_name: None,
        cookie_secure: None,
    }
}

#[test]
fn config_defaults_apply() {
    let c = Config::from_vars(vars()).unwrap();
    assert_eq!(c.bind_addr, "0.0.0.0:8080");
    assert_eq!(c.access_token_ttl_minutes, 15);
    assert_eq!(c.refresh_token_ttl_days, 7);
    assert_eq!(c.storage_dir, "./data/attachments");
    assert_eq!(c.max_upload_mb, 25);
    assert_eq!(c.bootstrap_admin_name, "Admin");
    assert!(!c.cookie_secure);
}

#[test]
fn config_errors_name_the_variable() {
    let mut v = vars();
    v.database_url = None;
    assert_eq!(Config::from_vars(v).err().unwrap(), "DATABASE_URL must be set");
    let mut v = vars();
    v.max_upload_mb = Some("lots".to_string());
    assert_eq!(Config::from_vars(v).err().unwrap(), "MAX_UPLOAD_MB must be an integer");
    let mut v = vars();
    v.cookie_secure = Some("yes".to_string());
    assert_eq!(Config::from_vars(v).err().unwrap(), "COOKIE_SECURE must be true or false");
    let mut v = vars();
    v.cookie_secure = Some("true".to_string());
    v.access_token_ttl_minutes = Some("-5".to_string());
    let c = Config::from_vars(v).unwrap();
    assert!(c.cookie_secure);
    assert_eq!(c.access_token_ttl_minutes, -5);
}

#[test]
fn task_listing_numbers_its_placeholders() {
    let f = TaskFilter { status: None, assignee_id: None, tag_id: None, search: None };
    let q = task_list_query(9, &f);
    assert!(q.sql.ends_with(" WHERE t.project_id = $1 ORDER BY t.task_number DESC"));
    assert!(!q.sql.contains("JOIN task_tags"));
    assert_eq!(q.args.len(), 1);
    let f = TaskFilter {
        status: Some(TaskStatus::Pending),
        assignee_id: None,
        tag_id: Some(4),
        search: Some("bug".to_string()),
    };
    let q = task_list_query(9, &f);
    assert!(q.sql.contains(" JOIN task_tags tt ON tt.task_id = t.id WHERE t.project_id = $1 AND t.status = $2 AND tt.tag_id = $3 AND t.title ILIKE $4 ESCAPE '\\' ORDER BY"));
    assert!(matches!(&q.args[3], SqlArg::Text(p) if p == "%bug%"));
}

#[test]
fn task_search_takes_wildcards_literally() {
    let f = TaskFilter {
        status: None,
        assignee_id: None,
        tag_id: None,
        search: Some("50%_off\\now".to_string()),
    };
    let q = task_list_query(9, &f);
    assert!(q.sql.ends_with(" AND t.title ILIKE $2 ESCAPE '\\' ORDER BY t.task_number DESC"));
    assert!(matches!(&q.args[1], SqlArg::Text(p) if p == "%50\\%\\_off\\\\now%"));
}

#[test]
fn task_updates_number_their_placeholders() {
    let u = TaskUpdate {
        title: None,
        description: Some(None),
        status: Some(TaskStatus::Completed),
        priority: None,
        assignee_id: Some(Some(5)),
        due_date: None,
    };
    let q = task_update_query(77, &u);
    assert!(q.sql.starts_with(
        "UPDATE tasks SET updated_at = now(), description = $1, status = $2, assignee_id = $3 WHERE id = $4 RETURNING"
    ));
    assert_eq!(q.args.len(), 4);
    assert!(matches!(q.args[0], SqlArg::NullableText(None)));
    assert!(matches!(q.args[3], SqlArg::Uuid(77)));
    let none = TaskUpdate { title: None, description: None, status: None, priority: None, assignee_id: None, due_date: None };
    assert!(task_update_query(1, &none).sql.starts_with("UPDATE tasks SET updated_at = now() WHERE id = $1 RETURNING"));
}
