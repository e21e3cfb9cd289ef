use crud_client::{Collection, Table};

fn local(port: u16) -> Collection {
    Collection { host: "http://127.0.0.1".to_string(), port }
}

#[test]
fn table_names_cover_the_closed_set() {
    assert_eq!(Table::Transaction.get_string(), "transaction");
    assert_eq!(Table::Product.get_string(), "product");
    assert_eq!(Table::History.get_string(), "history");
    assert_eq!(Table::Cart.get_string(), "cart");
    assert_eq!(Table::Background.get_string(), "background");
    assert_eq!(Table::Header.get_string(), "header");
}

#[test]
fn records_url_follows_the_convention() {
    let con = local(8090);
    assert_eq!(
        Table::Product.url_struct(&con),
        "http://127.0.0.1:8090/api/collections/product/records"
    );
}

#[test]
fn records_url_port_edges() {
    assert_eq!(
        Table::Cart.url_struct(&local(0)),
        "http://127.0.0.1:0/api/collections/cart/records"
    );
    assert_eq!(
        Table::Cart.url_struct(&local(65535)),
        "http://127.0.0.1:65535/api/collections/cart/records"
    );
}

#[test]
fn list_url_with_and_without_query() {
    let con = local(8090);
    assert_eq!(
        Table::History.list_url(&con, None),
        "http://127.0.0.1:8090/api/collections/history/records"
    );
    assert_eq!(
        Table::History.list_url(&con, Some("perPage=1")),
        "http://127.0.0.1:8090/api/collections/history/records?perPage=1"
    );
}

#[test]
fn record_url_appends_the_id() {
    let con = local(8090);
    assert_eq!(
        Table::Transaction.record_url(&con, "abc123"),
        "http://127.0.0.1:8090/api/collections/transaction/records/abc123"
    );
}
