use nautilus_bin::exposure::{capped_grid, exposure};

fn order(id: &str, is_buy: bool, leaves: i128) -> (String, bool, i128) {
    (id.to_string(), is_buy, leaves)
}

#[test]
fn exposure_of_flat_book_is_zero() {
    assert_eq!(exposure(vec![], vec![]), (0, 0));
}

#[test]
fn exposure_adds_buys_to_long_and_subtracts_sells_from_short() {
    let positions = vec![300, -100];
    let orders = vec![order("O-1", true, 50), order("O-2", false, 70), order("O-3", true, 5)];
    assert_eq!(exposure(positions, orders), (255, 130));
}

#[test]
fn exposure_counts_an_order_both_open_and_in_flight_once() {
    let orders = vec![
        order("O-1", true, 40),
        order("O-2", false, 10),
        order("O-1", true, 40),
        order("O-2", false, 10),
    ];
    assert_eq!(exposure(vec![-25], orders), (15, -35));
}

#[test]
fn capped_grid_keeps_every_quote_under_a_wide_cap() {
    let levels = vec![(true, true), (true, true)];
    let sides = capped_grid(levels, 0, 0, 10, 100);
    assert_eq!(sides, vec![(0, true), (0, false), (1, true), (1, false)]);
}

#[test]
fn capped_grid_stops_buying_at_the_long_cap() {
    // long exposure 80 leaves room for two more buys of 10; the short side has room for all
    let levels = vec![(true, true), (true, true), (true, true)];
    let sides = capped_grid(levels, 80, 80, 10, 100);
    assert_eq!(
        sides,
        vec![(0, true), (0, false), (1, true), (1, false), (2, false)]
    );
}

#[test]
fn capped_grid_stops_selling_at_the_short_cap() {
    let levels = vec![(true, true), (true, true)];
    let sides = capped_grid(levels, -96, -96, 5, 100);
    assert_eq!(sides, vec![(0, true), (1, true)]);
}

#[test]
fn capped_grid_skips_levels_without_a_price() {
    let levels = vec![(false, true), (true, false)];
    let sides = capped_grid(levels, 0, 0, 1, 10);
    assert_eq!(sides, vec![(0, false), (1, true)]);
}

#[test]
fn capped_grid_quotes_nothing_with_a_zero_cap() {
    let levels = vec![(true, true)];
    assert_eq!(capped_grid(levels, 0, 0, 1, 0), vec![]);
}
