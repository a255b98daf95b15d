use price_tracker::catalog::{lookup_key, LookupKey};
use price_tracker::error::{ErrorKind, ScrapeError};
use price_tracker::models::page::PageHandler;
use price_tracker::models::product::{Product, ProductId};
use price_tracker::models::product_price::{
    CreateProductPricePayload, ProductPrice, ProductPriceId,
};
use price_tracker::models::store::StoreId;
use price_tracker::pool::Dispatch;
use price_tracker::scraper::kabum_product_handler::{
    DetailTask, KabumManufacturer, KabumProductDescription, KabumProductHandler, TaskAction,
    TaskEvent, TaskPhase, DETAIL_ENDPOINT, PRODUCT_ID_PIECE,
};
use price_tracker::scraper::queue_scraper::{
    outcome_of, QueueScraper, CONCURRENT_LIMIT, DISPATCH_DELAY_MS,
};
use price_tracker::scraper::QueuePage;
use price_tracker::web_url::WebUrl;

fn item(url: &str, ean: Option<&str>, gtin: Option<&str>) -> QueuePage {
    QueuePage {
        url: WebUrl::parse(url).unwrap(),
        store_id: StoreId(1),
        handler: PageHandler::KabumProduct,
        ean: ean.map(|s| s.to_string()),
        gtin: gtin.map(|s| s.to_string()),
    }
}

fn detail(name: &str, brand: &str, price: i64) -> KabumProductDescription {
    KabumProductDescription {
        id: 12345,
        name: name.to_string(),
        availability: true,
        manufacturer: KabumManufacturer { id: 9, name: brand.to_string() },
        price,
        old_price: price + 1000,
        discount_price: price - 500,
    }
}

fn product(id: i32) -> Product {
    Product {
        id: ProductId(id),
        name: "RTX".to_string(),
        brand: "Nvidia".to_string(),
        url: None,
        image: None,
        ean: None,
        gtin: None,
        active: true,
        created_at: 0,
        updated_at: 0,
        deleted_at: None,
    }
}

fn price_row(id: i32) -> ProductPrice {
    ProductPrice {
        id: ProductPriceId(id),
        product_id: ProductId(1),
        store_id: StoreId(1),
        price: 100,
        active: true,
        created_at: 0,
        updated_at: 0,
        deleted_at: None,
    }
}

fn failure(task: &DetailTask) -> (ErrorKind, String) {
    match task {
        DetailTask::Failed { error } => (error.kind, error.message.clone()),
        other => panic!("not failed: {:?}", other),
    }
}

#[test]
fn product_id_is_the_third_piece_of_the_path() {
    let q = item("https://www.kabum.com.br/produto/12345/slug", None, None);
    assert_eq!(KabumProductHandler::product_id(&q), Some("12345".to_string()));
    assert_eq!(PRODUCT_ID_PIECE, 2);
}

#[test]
fn product_id_is_missing_from_a_short_path() {
    for url in ["https://www.kabum.com.br/produto", "https://www.kabum.com.br", "mailto:a@b.c"] {
        assert_eq!(KabumProductHandler::product_id(&item(url, None, None)), None, "{}", url);
    }
}

#[test]
fn product_id_may_be_empty() {
    let q = item("https://www.kabum.com.br/produto/", None, None);
    assert_eq!(KabumProductHandler::product_id(&q), Some(String::new()));
}

#[test]
fn detail_url_appends_the_identifier() {
    let handler = KabumProductHandler::new();
    assert_eq!(
        handler.api,
        "https://servicespub.prod.api.aws.grupokabum.com.br/descricao/v1/descricao/produto/"
    );
    assert_eq!(handler.api, DETAIL_ENDPOINT);
    assert_eq!(
        handler.detail_url("12345").unwrap().as_str(),
        "https://servicespub.prod.api.aws.grupokabum.com.br/descricao/v1/descricao/produto/12345"
    );
    let odd = KabumProductHandler { api: "no scheme ".to_string() };
    assert!(odd.detail_url("1").is_none());
}

#[test]
fn lookup_key_prefers_ean_then_gtin_then_url() {
    let url = "https://www.kabum.com.br/produto/1/a";
    assert!(matches!(lookup_key(&item(url, Some("e"), Some("g"))), LookupKey::Ean(k) if k == "e"));
    assert!(matches!(lookup_key(&item(url, Some("e"), None)), LookupKey::Ean(k) if k == "e"));
    assert!(matches!(lookup_key(&item(url, None, Some("g"))), LookupKey::Gtin(k) if k == "g"));
    assert!(matches!(lookup_key(&item(url, None, None)), LookupKey::Url(k) if k == url));
}

#[test]
fn new_product_takes_vendor_name_and_item_hints() {
    let q = item("https://www.kabum.com.br/produto/1/a", Some("789"), Some("0789"));
    let payload = KabumProductHandler::new_product(&q, &detail("RTX 4090", "Nvidia", 1)).unwrap();
    assert_eq!(payload.name, "RTX 4090");
    assert_eq!(payload.brand, "Nvidia");
    assert_eq!(payload.url.unwrap().as_str(), "https://www.kabum.com.br/produto/1/a");
    assert_eq!(payload.image, None);
    assert_eq!(payload.ean.as_deref(), Some("789"));
    assert_eq!(payload.gtin.as_deref(), Some("0789"));
}

#[test]
fn new_product_must_pass_the_rules() {
    let q = item("https://www.kabum.com.br/produto/1/a", None, None);
    assert!(KabumProductHandler::new_product(&q, &detail("", "Nvidia", 1)).is_err());
    assert!(KabumProductHandler::new_product(&q, &detail("RTX", "", 1)).is_err());
}

#[test]
fn price_payload_names_product_and_store() {
    assert_eq!(
        KabumProductHandler::price_payload(&product(4), 2, 129990),
        CreateProductPricePayload { product_id: 4, store_id: 2, price: 129990 }
    );
}

#[test]
fn task_walks_through_its_phases_on_a_hit() {
    let handler = KabumProductHandler::new();
    let task = DetailTask::new(item("https://www.kabum.com.br/produto/12345/slug", None, None));
    assert_eq!(task.phase(), TaskPhase::Pending);
    assert!(!task.ended());
    let (task, action) = handler.step(task, TaskEvent::Start);
    assert_eq!(task.phase(), TaskPhase::Fetching);
    match action {
        TaskAction::Fetch(url) => assert_eq!(
            url.as_str(),
            "https://servicespub.prod.api.aws.grupokabum.com.br/descricao/v1/descricao/produto/12345"
        ),
        other => panic!("{:?}", other),
    }
    let (task, action) = handler.step(task, TaskEvent::Fetched(Ok(detail("RTX", "Nvidia", 5))));
    assert_eq!(task.phase(), TaskPhase::Fetching);
    assert!(matches!(action, TaskAction::Find(LookupKey::Url(u))
        if u == "https://www.kabum.com.br/produto/12345/slug"));
    let (task, action) = handler.step(task, TaskEvent::Looked(Ok(Some(product(8)))));
    assert_eq!(task.phase(), TaskPhase::Resolved);
    match action {
        TaskAction::CreatePrice(payload) => assert_eq!(
            payload,
            CreateProductPricePayload { product_id: 8, store_id: 1, price: 5 }
        ),
        other => panic!("{:?}", other),
    }
    let (task, action) = handler.step(task, TaskEvent::PriceCreated(Ok(price_row(3))));
    assert_eq!(task.phase(), TaskPhase::Persisted);
    assert!(task.ended());
    assert!(matches!(action, TaskAction::Stop));
    assert!(matches!(outcome_of(task), Some(Ok(row)) if row.id == ProductPriceId(3)));
}

#[test]
fn task_creates_the_product_on_a_miss() {
    let handler = KabumProductHandler::new();
    let task = DetailTask::new(item("https://www.kabum.com.br/produto/1/a", Some("789"), None));
    let (task, _) = handler.step(task, TaskEvent::Start);
    let (task, action) = handler.step(task, TaskEvent::Fetched(Ok(detail("RTX", "Nvidia", 5))));
    assert!(matches!(action, TaskAction::Find(LookupKey::Ean(e)) if e == "789"));
    let (task, action) = handler.step(task, TaskEvent::Looked(Ok(None)));
    assert_eq!(task.phase(), TaskPhase::Fetching);
    match action {
        TaskAction::CreateProduct(payload) => {
            assert_eq!(payload.name, "RTX");
            assert_eq!(payload.brand, "Nvidia");
            assert_eq!(payload.ean.as_deref(), Some("789"));
            assert_eq!(payload.gtin, None);
            assert_eq!(payload.url.unwrap().as_str(), "https://www.kabum.com.br/produto/1/a");
        }
        other => panic!("{:?}", other),
    }
    let (task, action) = handler.step(task, TaskEvent::ProductCreated(Ok(product(2))));
    assert_eq!(task.phase(), TaskPhase::Resolved);
    assert!(matches!(action, TaskAction::CreatePrice(p) if p.product_id == 2 && p.price == 5));
}

#[test]
fn task_fails_on_a_url_without_identifier() {
    let handler = KabumProductHandler::new();
    let task = DetailTask::new(item("https://www.kabum.com.br/produto", None, None));
    let (task, action) = handler.step(task, TaskEvent::Start);
    assert!(matches!(action, TaskAction::Stop));
    assert_eq!(task.phase(), TaskPhase::Failed);
    assert_eq!(
        failure(&task),
        (
            ErrorKind::Validation,
            "malformed product url https://www.kabum.com.br/produto".to_string()
        )
    );
}

#[test]
fn task_fails_on_a_search_item() {
    let handler = KabumProductHandler::new();
    let mut q = item("https://www.kabum.com.br/produto/1/a", None, None);
    q.handler = PageHandler::KabumSearch;
    let (task, action) = handler.step(DetailTask::new(q), TaskEvent::Start);
    assert!(matches!(action, TaskAction::Stop));
    assert_eq!(
        failure(&task),
        (ErrorKind::Validation, "page handler does not read product pages".to_string())
    );
}

#[test]
fn task_fails_on_a_detail_url_that_does_not_parse() {
    let handler = KabumProductHandler { api: "nowhere ".to_string() };
    let task = DetailTask::new(item("https://www.kabum.com.br/produto/1/a", None, None));
    let (task, action) = handler.step(task, TaskEvent::Start);
    assert!(matches!(action, TaskAction::Stop));
    assert_eq!(failure(&task), (ErrorKind::Fetch, "malformed detail url".to_string()));
}

fn at_phase(handler: &KabumProductHandler, steps: usize) -> DetailTask {
    let mut task = DetailTask::new(item("https://www.kabum.com.br/produto/1/a", None, None));
    let events = vec![
        TaskEvent::Start,
        TaskEvent::Fetched(Ok(detail("RTX", "Nvidia", 5))),
        TaskEvent::Looked(Ok(None)),
        TaskEvent::ProductCreated(Ok(product(1))),
    ];
    for event in events.into_iter().take(steps) {
        task = handler.step(task, event).0;
    }
    task
}

#[test]
fn task_fails_with_the_failure_it_is_told() {
    let handler = KabumProductHandler::new();
    let error = |kind| ScrapeError::new(kind, "boom");
    let (task, action) =
        handler.step(at_phase(&handler, 1), TaskEvent::Fetched(Err(error(ErrorKind::Fetch))));
    assert!(matches!(action, TaskAction::Stop));
    assert_eq!(failure(&task), (ErrorKind::Fetch, "boom".to_string()));
    let (task, _) =
        handler.step(at_phase(&handler, 2), TaskEvent::Looked(Err(error(ErrorKind::Storage))));
    assert_eq!(failure(&task), (ErrorKind::Storage, "boom".to_string()));
    let (task, _) = handler
        .step(at_phase(&handler, 3), TaskEvent::ProductCreated(Err(error(ErrorKind::Storage))));
    assert_eq!(failure(&task), (ErrorKind::Storage, "boom".to_string()));
    let (task, _) = handler
        .step(at_phase(&handler, 4), TaskEvent::PriceCreated(Err(error(ErrorKind::Validation))));
    assert_eq!(failure(&task), (ErrorKind::Validation, "boom".to_string()));
    assert!(matches!(outcome_of(task), Some(Err(e)) if e.kind == ErrorKind::Validation));
}

#[test]
fn task_fails_when_the_new_product_breaks_a_rule() {
    let handler = KabumProductHandler::new();
    let task = at_phase(&handler, 1);
    let (task, _) = handler.step(task, TaskEvent::Fetched(Ok(detail("", "Nvidia", 5))));
    let (task, action) = handler.step(task, TaskEvent::Looked(Ok(None)));
    assert!(matches!(action, TaskAction::Stop));
    assert_eq!(failure(&task), (ErrorKind::Validation, "invalid payload".to_string()));
}

#[test]
fn task_fails_on_an_event_that_does_not_fit() {
    let handler = KabumProductHandler::new();
    let (task, action) = handler.step(at_phase(&handler, 0), TaskEvent::Looked(Ok(None)));
    assert!(matches!(action, TaskAction::Stop));
    assert_eq!(
        failure(&task),
        (ErrorKind::Validation, "event does not fit the state of the item".to_string())
    );
    let (task, _) = handler.step(at_phase(&handler, 2), TaskEvent::Start);
    assert_eq!(task.phase(), TaskPhase::Failed);
}

#[test]
fn task_that_has_ended_stays_as_it_is() {
    let handler = KabumProductHandler::new();
    let (task, _) = handler.step(at_phase(&handler, 4), TaskEvent::PriceCreated(Ok(price_row(5))));
    let (task, action) = handler.step(task, TaskEvent::Start);
    assert!(matches!(action, TaskAction::Stop));
    assert!(matches!(&task, DetailTask::Persisted { price } if price.id == ProductPriceId(5)));
    let failed = DetailTask::Failed { error: ScrapeError::new(ErrorKind::Timeout, "late") };
    let (task, action) = handler.step(failed, TaskEvent::Fetched(Ok(detail("a", "b", 1))));
    assert!(matches!(action, TaskAction::Stop));
    assert_eq!(failure(&task), (ErrorKind::Timeout, "late".to_string()));
}

#[test]
fn outcome_of_a_task_under_way_is_none() {
    let handler = KabumProductHandler::new();
    for steps in 0..5 {
        assert!(outcome_of(at_phase(&handler, steps)).is_none());
    }
}

#[test]
fn detail_stage_limits() {
    assert_eq!(CONCURRENT_LIMIT, 10);
    assert_eq!(DISPATCH_DELAY_MS, 300);
}

#[test]
fn detail_stage_paces_its_starts() {
    let queue = (0..3)
        .map(|i| item(&format!("https://www.kabum.com.br/produto/{}/a", i), None, None))
        .collect();
    let mut stage = QueueScraper::new(queue);
    assert_eq!(stage.item(2).unwrap().url.path(), "/produto/2/a");
    assert!(stage.item(3).is_none());
    assert_eq!(stage.poll(0), Dispatch::Start(0));
    assert_eq!(stage.poll(299), Dispatch::WaitUntil(300));
    assert_eq!(stage.poll(300), Dispatch::Start(1));
    assert_eq!(stage.poll(450), Dispatch::WaitUntil(600));
    assert_eq!(stage.poll(600), Dispatch::Start(2));
    assert_eq!(stage.in_flight(), 3);
    assert_eq!(stage.poll(900), Dispatch::WaitForCompletion);
}

#[test]
fn detail_stage_runs_at_most_ten_at_once() {
    let queue = (0..25)
        .map(|i| item(&format!("https://www.kabum.com.br/produto/{}/a", i), None, None))
        .collect();
    let mut stage = QueueScraper::new(queue);
    let mut now = 0;
    let mut running = Vec::new();
    let mut most = 0;
    loop {
        match stage.poll(now) {
            Dispatch::Start(i) => running.push(i),
            Dispatch::WaitUntil(at) => {
                assert!(at > now);
                now = at;
            }
            Dispatch::WaitForCompletion => {
                let i = running.pop().unwrap();
                assert!(stage.complete(i, Ok(price_row(i as i32 + 1))));
            }
            Dispatch::Done => break,
        }
        assert_eq!(stage.in_flight(), running.len());
        most = most.max(running.len());
    }
    assert_eq!(most, 10);
    let outcomes = stage.finish().unwrap();
    assert_eq!(outcomes.len(), 25);
    for (i, outcome) in outcomes.iter().enumerate() {
        assert_eq!(outcome.as_ref().unwrap().id, ProductPriceId(i as i32 + 1));
    }
}

#[test]
fn a_failed_item_does_not_stop_the_stage() {
    let queue = (0..3)
        .map(|i| item(&format!("https://www.kabum.com.br/produto/{}/a", i), None, None))
        .collect();
    let mut stage = QueueScraper::with_limits(queue, 1, 0);
    assert_eq!(stage.poll(0), Dispatch::Start(0));
    assert!(stage.complete(0, Ok(price_row(1))));
    assert_eq!(stage.poll(0), Dispatch::Start(1));
    assert!(stage.complete(1, Err(ScrapeError::new(ErrorKind::Fetch, "status 500"))));
    let mut stage = match stage.finish() {
        Err(stage) => stage,
        Ok(_) => panic!("finished with an item waiting"),
    };
    assert_eq!(stage.poll(0), Dispatch::Start(2));
    assert!(stage.complete(2, Ok(price_row(2))));
    assert_eq!(stage.poll(0), Dispatch::Done);
    let outcomes = stage.finish().unwrap();
    assert!(matches!(&outcomes[0], Ok(row) if row.id == ProductPriceId(1)));
    assert!(matches!(&outcomes[1], Err(e) if e.kind == ErrorKind::Fetch && e.message == "status 500"));
    assert!(matches!(&outcomes[2], Ok(row) if row.id == ProductPriceId(2)));
}
