use marketshield::comparison::{find_our_offering, ranks_in_order, LARGEST_GAP_COUNT};
use marketshield::error::AppError;
use marketshield::models::Competitor;

fn competitor(id: &str, is_us: i64) -> Competitor {
    Competitor {
        id: id.to_string(),
        name: id.to_string(),
        short_name: id.to_string(),
        is_us,
        notes: String::new(),
    }
}

#[test]
fn our_offering_is_found_among_the_competitors() {
    let competitors = vec![competitor("rival", 0), competitor("cape_meridian", 1)];
    assert_eq!(find_our_offering(&competitors), Ok(1));
    assert_eq!(
        find_our_offering(&vec![competitor("rival", 0)]),
        Err(AppError::Internal(
            "no competitor row is flagged as our own offering".to_string()
        ))
    );
}

#[test]
fn standings_are_ranked_from_one() {
    assert_eq!(ranks_in_order(4), vec![1, 2, 3, 4]);
    assert!(ranks_in_order(0).is_empty());
    assert_eq!(LARGEST_GAP_COUNT, 3);
}
