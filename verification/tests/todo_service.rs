use todo_api::http::create_result;
use todo_api::http::create_todo;
use todo_api::http::delete_todo;
use todo_api::http::get_todo;
use todo_api::http::list_todos;
use todo_api::http::update_result;
use todo_api::http::update_todo;
use todo_api::ids::decode_id;
use todo_api::service::handle_create;
use todo_api::service::handle_create_with;
use todo_api::service::handle_delete;
use todo_api::service::handle_get;
use todo_api::service::handle_list;
use todo_api::service::handle_update;
use todo_api::Body;
use todo_api::ConnPool;
use todo_api::CreateTodo;
use todo_api::DbError;
use todo_api::Todo;
use todo_api::TodoStore;
use todo_api::UpdateTodo;
use todo_api::POOL_MAX_CONNECTIONS;

const ID1: &str = "00000000-0000-0000-0000-000000000001";
const ID2: &str = "00000000-0000-0000-0000-000000000002";
const ID3: &str = "00000000-0000-0000-0000-000000000003";
const UNUSED: &str = "a1a2a3a4-b1b2-c1c2-d1d2-d3d4d5d6d7d8";

fn body_item(resp: &todo_api::Response) -> &Todo {
    match &resp.body {
        Body::Item(t) => t,
        _ => panic!("expected a single record in the body"),
    }
}

fn body_items(resp: &todo_api::Response) -> &Vec<Todo> {
    match &resp.body {
        Body::Items(v) => v,
        _ => panic!("expected a list of records in the body"),
    }
}

fn body_text(resp: &todo_api::Response) -> &str {
    match &resp.body {
        Body::Text(m) => m.as_str(),
        _ => panic!("expected a text body"),
    }
}

#[test]
fn create_then_get_round_trip() {
    let mut store = TodoStore::new();
    let resp = handle_create_with(&mut store, CreateTodo { title: String::from("a") }, 1, 100);
    assert_eq!(resp.status, 200);
    let created = body_item(&resp);
    assert_eq!(created.id, 1);
    assert_eq!(created.title, "a");
    assert_eq!(created.completed, false);
    assert_eq!(created.created_at, 100);

    let got = handle_get(&store, ID1);
    assert_eq!(got.status, 200);
    let t = body_item(&got);
    assert_eq!(t.id, 1);
    assert_eq!(t.title, "a");
    assert_eq!(t.completed, false);
    assert!(t.created_at >= 100);
}

#[test]
fn create_with_random_identifier() {
    let mut store = TodoStore::new();
    let resp = handle_create(&mut store, CreateTodo { title: String::from("a") }, 5);
    assert_eq!(resp.status, 200);
    let created = body_item(&resp);
    assert_eq!(created.title, "a");
    assert_eq!(created.completed, false);
    assert_eq!(created.created_at, 5);
}

#[test]
fn list_returns_newest_first() {
    let mut store = TodoStore::new();
    assert_eq!(handle_create_with(&mut store, CreateTodo { title: String::from("r1") }, 1, 10).status, 200);
    assert_eq!(handle_create_with(&mut store, CreateTodo { title: String::from("r2") }, 2, 20).status, 200);
    assert_eq!(handle_create_with(&mut store, CreateTodo { title: String::from("r3") }, 3, 30).status, 200);

    let resp = handle_list(&store);
    assert_eq!(resp.status, 200);
    let v = body_items(&resp);
    assert_eq!(v.len(), 3);
    assert_eq!(v[0].title, "r3");
    assert_eq!(v[1].title, "r2");
    assert_eq!(v[2].title, "r1");
    assert!(v[0].created_at >= v[1].created_at && v[1].created_at >= v[2].created_at);
}

#[test]
fn partial_update_preserves_omitted_fields() {
    let mut store = TodoStore::new();
    handle_create_with(&mut store, CreateTodo { title: String::from("x") }, 1, 10);

    let resp = handle_update(&mut store, ID1, &UpdateTodo { title: None, completed: Some(true) });
    assert_eq!(resp.status, 200);
    let t = body_item(&resp);
    assert_eq!(t.title, "x");
    assert_eq!(t.completed, true);

    let mut store2 = TodoStore::new();
    handle_create_with(&mut store2, CreateTodo { title: String::from("x") }, 1, 10);
    let resp2 = handle_update(&mut store2, ID1, &UpdateTodo { title: Some(String::from("y")), completed: None });
    assert_eq!(resp2.status, 200);
    let t2 = body_item(&resp2);
    assert_eq!(t2.title, "y");
    assert_eq!(t2.completed, false);

    // identifier and creation time are immutable under update
    assert_eq!(t2.id, 1);
    assert_eq!(t2.created_at, 10);
}

#[test]
fn unused_identifier_is_not_found_not_an_error() {
    let mut store = TodoStore::new();
    handle_create_with(&mut store, CreateTodo { title: String::from("a") }, 1, 10);

    let got = handle_get(&store, UNUSED);
    assert_eq!(got.status, 404);

    let upd = handle_update(&mut store, UNUSED, &UpdateTodo { title: None, completed: Some(true) });
    assert_eq!(upd.status, 404);
    assert_eq!(body_text(&upd), "Task not found");

    // absence and store failure stay distinct outcomes
    let absent = get_todo(Ok(None));
    assert_eq!(absent.status, 404);
    let failed = get_todo(Err(DbError {}));
    assert_eq!(failed.status, 500);
}

#[test]
fn delete_is_idempotent() {
    let mut store = TodoStore::new();
    handle_create_with(&mut store, CreateTodo { title: String::from("a") }, 1, 10);

    let first = handle_delete(&mut store, ID1);
    assert_eq!(first.status, 200);
    assert_eq!(body_text(&first), "Deleted");

    let second = handle_delete(&mut store, ID1);
    assert_eq!(second.status, 200);
    assert_eq!(body_text(&second), "Deleted");

    let never_created = handle_delete(&mut store, ID2);
    assert_eq!(never_created.status, 200);
    assert_eq!(body_text(&never_created), "Deleted");

    assert_eq!(handle_get(&store, ID1).status, 404);
}

#[test]
fn malformed_input_rejected_before_data_access() {
    let mut store = TodoStore::new();
    handle_create_with(&mut store, CreateTodo { title: String::from("a") }, 1, 10);

    // an empty title never reaches the store
    let resp = handle_create(&mut store, CreateTodo { title: String::new() }, 20);
    assert_eq!(resp.status, 400);

    // a malformed identifier never reaches the store
    assert_eq!(handle_get(&store, "not-an-identifier").status, 400);
    assert_eq!(handle_delete(&mut store, "not-an-identifier").status, 400);
    let upd = handle_update(&mut store, "not-an-identifier", &UpdateTodo { title: None, completed: Some(true) });
    assert_eq!(upd.status, 400);

    // the collection is untouched by all of the rejected requests
    let listed = handle_list(&store);
    let v = body_items(&listed);
    assert_eq!(v.len(), 1);
    assert_eq!(v[0].title, "a");
    assert_eq!(v[0].completed, false);
}

#[test]
fn create_validation_decision() {
    match create_todo(CreateTodo { title: String::new() }) {
        Err(resp) => assert_eq!(resp.status, 400),
        Ok(_) => panic!("an empty title must be rejected"),
    }
    match create_todo(CreateTodo { title: String::from("buy milk") }) {
        Ok(title) => assert_eq!(title, "buy milk"),
        Err(_) => panic!("a non-empty title must pass through"),
    }
}

#[test]
fn outcome_mappings_match_the_response_table() {
    let ok_list = list_todos(Ok(Vec::new()));
    assert_eq!(ok_list.status, 200);
    assert_eq!(body_items(&ok_list).len(), 0);
    assert_eq!(list_todos(Err(DbError {})).status, 500);

    let created = create_result(Ok(Todo { id: 7, title: String::from("t"), completed: false, created_at: 1 }));
    assert_eq!(created.status, 200);
    assert_eq!(body_item(&created).id, 7);
    assert_eq!(create_result(Err(DbError {})).status, 500);

    let acked = delete_todo(Err(DbError {}));
    assert_eq!(acked.status, 200);
    assert_eq!(body_text(&acked), "Deleted");
}

#[test]
fn update_failure_branches_have_distinct_messages() {
    let body = UpdateTodo { title: None, completed: Some(true) };

    match update_todo(Err(DbError {}), &body) {
        Err(resp) => {
            assert_eq!(resp.status, 500);
            assert_eq!(body_text(&resp), "database error");
        },
        Ok(_) => panic!("a read failure must not merge"),
    }

    match update_todo(Ok(None), &body) {
        Err(resp) => {
            assert_eq!(resp.status, 404);
            assert_eq!(body_text(&resp), "Task not found");
        },
        Ok(_) => panic!("an absent record must not merge"),
    }

    let cur = Todo { id: 3, title: String::from("x"), completed: false, created_at: 9 };
    match update_todo(Ok(Some(cur)), &body) {
        Ok(merged) => {
            assert_eq!(merged.title, "x");
            assert_eq!(merged.completed, true);
            assert_eq!(merged.id, 3);
            assert_eq!(merged.created_at, 9);
        },
        Err(_) => panic!("a present record must merge"),
    }

    let written = update_result(Err(DbError {}));
    assert_eq!(written.status, 500);
    assert_eq!(body_text(&written), "Update failed");

    let ok = update_result(Ok(Todo { id: 3, title: String::from("y"), completed: true, created_at: 9 }));
    assert_eq!(ok.status, 200);
    assert_eq!(body_item(&ok).title, "y");
}

#[test]
fn identifier_decoding() {
    match decode_id(ID1) {
        Ok(id) => assert_eq!(id, 1),
        Err(_) => panic!("a well-formed identifier must decode"),
    }
    match decode_id("550e8400-e29b-41d4-a716-446655440000") {
        Ok(id) => assert_eq!(id, 0x550e8400e29b41d4a716446655440000),
        Err(_) => panic!("a well-formed identifier must decode"),
    }
    match decode_id("zz0e8400-e29b-41d4-a716-446655440000") {
        Ok(_) => panic!("malformed identifier syntax must be rejected"),
        Err(resp) => assert_eq!(resp.status, 400),
    }
    assert_ne!(ID1, ID3);
}

#[test]
fn pool_never_exceeds_its_bound_and_frees_serve_waiters() {
    let mut pool = ConnPool::new(POOL_MAX_CONNECTIONS);
    for _ in 0..POOL_MAX_CONNECTIONS {
        assert!(pool.try_acquire());
    }
    // the pool is full: an extra operation is not failed, it simply waits
    assert!(!pool.try_acquire());
    assert!(pool.in_use <= pool.capacity);

    // once a connection is returned, a waiting operation proceeds
    pool.release();
    assert!(pool.try_acquire());
    assert!(pool.in_use <= pool.capacity);
}
