use mycqu_gateway::cached::Admission;
use mycqu_gateway::card_service::{CardService, BILL_PAGE, BILL_ROWS, BILL_WINDOW_DAYS, CARD_TTL};
use mycqu_gateway::library_service::LibraryService;
use mycqu_gateway::mycqu_service::MycquServicer;
use mycqu_gateway::session::{SESSION_TTL, SWEEP_INTERVAL};

#[test]
fn library_service_is_made() {
    let _service: LibraryService = LibraryService::new();
}

#[test]
fn card_service_starts_with_empty_caches() {
    let mut service = CardService::new();
    assert_eq!(service.request_coalescer.check_interval(), SWEEP_INTERVAL);
    assert_eq!(service.card_coalescer.check_interval(), SWEEP_INTERVAL);
    assert_eq!(service.request_coalescer.execute_at("alice".to_string(), 1, 0), Admission::Lead);
    // the two caches are apart
    assert_eq!(service.card_coalescer.execute_at("alice".to_string(), 2, 0), Admission::Lead);
    let _ = service.card_coalescer.complete_at("alice".to_string(), 8, CARD_TTL, 0);
    assert_eq!(service.card_coalescer.execute_at("alice".to_string(), 3, CARD_TTL - 1), Admission::Hit(8));
    assert_eq!(service.card_coalescer.execute_at("alice".to_string(), 4, CARD_TTL), Admission::Lead);
    assert_eq!(service.request_coalescer.execute_at("alice".to_string(), 5, 0), Admission::Wait);
}

#[test]
fn bills_cover_thirty_days_in_one_page_of_a_hundred() {
    assert_eq!((BILL_WINDOW_DAYS, BILL_PAGE, BILL_ROWS), (30, 1, 100));
}

#[test]
fn mycqu_service_starts_with_an_empty_cache() {
    let mut service = MycquServicer::new();
    assert_eq!(service.request_coalescer.check_interval(), 30_000_000_000);
    assert_eq!(service.request_coalescer.execute_at("bob".to_string(), 1, 0), Admission::Lead);
    let _ = service.request_coalescer.complete_at("bob".to_string(), 4, SESSION_TTL, 0);
    assert_eq!(service.request_coalescer.execute_at("bob".to_string(), 2, 299_999_999_999), Admission::Hit(4));
    assert_eq!(service.request_coalescer.execute_at("bob".to_string(), 3, 300_000_000_000), Admission::Lead);
}
