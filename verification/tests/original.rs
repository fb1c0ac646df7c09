use stabil_api::routes::index;

#[test]
fn tests_test_login() {
    println!("The test requires the server feature / the tokio dependency.");
}

#[test]
fn index_greets() {
    assert_eq!(index::get(), "Hello World!");
}

