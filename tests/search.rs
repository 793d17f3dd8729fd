use api::metadata::{CourseStats, JwtService, LessonMetadata};
use api::search::{
    advanced_cache_key, advanced_conditions, default_fields, default_size, filter_cache_key,
    filter_conditions, search_cache_key, FilterCondition, FilterRequest, SearchRequest,
    SearchResponse, SearchResultResponse,
};

fn filter() -> FilterRequest {
    FilterRequest {
        status: None,
        min_duration: None,
        max_duration: None,
        prerequisites: None,
        title_match: None,
        from: 0,
        size: 10,
        sort_by: None,
        sort_order: None,
    }
}

#[test]
fn defaults() {
    assert_eq!(default_fields(), vec!["title".to_string(), "description".to_string(), "prerequisites".to_string()]);
    assert_eq!(default_size(), 10);
}

#[test]
fn filter_conditions_in_order() {
    let mut f = filter();
    f.status = Some("published".to_string());
    f.max_duration = Some(120);
    f.prerequisites = Some(vec![]);
    f.title_match = Some("rust".to_string());
    let c = filter_conditions(&f);
    assert_eq!(c.len(), 3);
    assert!(matches!(&c[0], FilterCondition::Term { field, value } if field == "status" && value == "published"));
    assert!(matches!(&c[1], FilterCondition::Range { field, gte: None, lte: Some(120), gt: None, lt: None } if field == "total_duration_minutes"));
    assert!(matches!(&c[2], FilterCondition::Match { field, value } if field == "title" && value == "rust"));
    f.prerequisites = Some(vec!["c".to_string()]);
    let c = filter_conditions(&f);
    assert!(matches!(&c[2], FilterCondition::Terms { field, values } if field == "prerequisites" && values.len() == 1));
    assert!(filter_conditions(&filter()).is_empty());
}

#[test]
fn advanced_conditions_skip_empty_query() {
    let mut f = filter();
    f.min_duration = Some(5);
    let c = advanced_conditions("", &f);
    assert_eq!(c.len(), 1);
    let c = advanced_conditions("graph", &f);
    assert_eq!(c.len(), 2);
    assert!(matches!(&c[0], FilterCondition::Match { value, .. } if value == "graph"));
}

#[test]
fn search_cache_keys() {
    let r = SearchRequest { query: "rust".to_string(), fields: default_fields(), from: 20, size: 10 };
    assert_eq!(search_cache_key(&r), "search:programs:rust:20:10");
    let mut f = filter();
    assert_eq!(filter_cache_key(&f), "filter:programs:none:0:0:0:10");
    f.status = Some("draft".to_string());
    f.min_duration = Some(-3);
    f.max_duration = Some(60);
    assert_eq!(filter_cache_key(&f), "filter:programs:draft:-3:60:0:10");
    assert_eq!(advanced_cache_key("neo", &f), "advanced:programs:neo:draft:0");
}

#[test]
fn search_response_page() {
    let r = SearchResultResponse::from_search(SearchResponse { total: 2, results: vec![1, 2] }, 0, 10);
    assert_eq!((r.total, r.results, r.from, r.size, r.source.as_str()), (2, vec![1, 2], 0, 10, "opensearch"));
}

#[test]
fn records() {
    let m = LessonMetadata::new(4, "Intro", 15, 2);
    assert_eq!((m.id, m.course_id, m.title.as_str(), m.duration_minutes, m.order), (0, 4, "Intro", 15, 2));
    let s = CourseStats::default();
    assert_eq!((s.lesson_count, s.total_duration), (0, 0));
    let j = JwtService::new("signing-key".to_string(), vec![1, 2]);
    assert_eq!(j.encryption_key, vec![1, 2]);
}
