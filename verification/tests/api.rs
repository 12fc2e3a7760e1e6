use amphitheatre::handlers::{detail, ensure_found, info, stats, CreatePlaybookRequest};
use amphitheatre::models::Player;
use amphitheatre::response::{empty, paginate, success, ApiError, Pagination, Response};

#[test]
fn responses_wrap_their_data() {
    assert!(matches!(empty(5), Ok(Response::EmptyResponse)));
    assert!(matches!(success(5), Ok(Response::SingleResponse { data: 5 })));
    let p = Pagination { current_page: 1, per_page: 30, total_entries: 45, total_pages: 2 };
    match paginate(vec![1, 2], p) {
        Ok(Response::PagedResponse { data, pagination }) => {
            assert_eq!(data, vec![1, 2]);
            assert_eq!(pagination.current_page, 1);
            assert_eq!(pagination.per_page, 30);
            assert_eq!(pagination.total_entries, 45);
            assert_eq!(pagination.total_pages, 2);
        }
        _ => panic!("expected a paged response"),
    }
}

#[test]
fn api_errors_answer_with_status_and_message() {
    assert_eq!(ApiError::NotFound.status_code(), 404);
    assert_eq!(ApiError::InternalServerError.status_code(), 500);
    assert_eq!(ApiError::NotFound.message(), "Not Found");
    assert_eq!(ApiError::InternalServerError.message(), "Internal Server Error");
}

#[test]
fn detail_answers_not_found_for_missing_playbooks() {
    assert!(matches!(detail(Some("p")), Ok(Response::SingleResponse { data: "p" })));
    assert!(matches!(detail::<u8>(None), Err(ApiError::NotFound)));
    assert!(matches!(ensure_found(true), Ok(())));
    assert!(matches!(ensure_found(false), Err(ApiError::NotFound)));
}

#[test]
fn actor_stats_and_info() {
    let s = stats();
    assert_eq!(s.len(), 4);
    assert_eq!(s[0], ("CPU USAGE".to_string(), "1.98%".to_string()));
    assert_eq!(s[3], ("NETWORK I/O".to_string(), "5.7 kB / 3 kB".to_string()));
    let i = info();
    assert_eq!(i.len(), 3);
    assert_eq!(i[0].0, "environments");
    assert_eq!(i[0].1.len(), 4);
    assert_eq!(i[1].0, "mounts");
    assert_eq!(i[1].1[3].0, "/VAR/LOG");
    assert_eq!(i[2].0, "port");
    assert_eq!(i[2].1, vec![("6443/tcp".to_string(), "0.0.0.0:42397".to_string())]);
}

#[test]
fn plain_records() {
    let r = CreatePlaybookRequest { title: "t".into(), description: "d".into() };
    assert_eq!(r.title, "t");
    let p = Player::default();
    assert_eq!(p.id, 0);
    assert!(p.name.is_empty());
}
