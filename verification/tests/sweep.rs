use hawkbit_fleet::client::HawkbitMgmtClient;
use hawkbit_fleet::config::HawkbitConfig;
use hawkbit_fleet::error::HawkbitError;
use hawkbit_fleet::orchestrator::Sweep;
use hawkbit_fleet::reconcile::ReconcilePolicy;
use hawkbit_fleet::report::FailureKind;
use hawkbit_fleet::report::FleetReport;
use hawkbit_fleet::request::Method;
use hawkbit_fleet::request::Payload;
use hawkbit_fleet::request::Request;
use hawkbit_fleet::sweep::Event;
use hawkbit_fleet::sweep::Expect;
use hawkbit_fleet::sweep::Phase;
use hawkbit_fleet::sweep::Step;
use hawkbit_fleet::types::Action;
use hawkbit_fleet::types::DistributionSet;
use hawkbit_fleet::types::DistributionSetLinks;
use hawkbit_fleet::types::MgmtTarget;
use hawkbit_fleet::types::PaginationResponse;

const NOW: i64 = 1_700_000_000;
const BASE: &str = "http://h/rest/v1/";

type DeviceSpec = (&'static str, Option<&'static str>, Option<i64>);
type ActionSpec = (i64, &'static str, &'static str, &'static str);

fn bundle(id: u64, name: &str, created_at: u64) -> DistributionSet {
    DistributionSet {
        links: DistributionSetLinks { self_link: None },
        complete: true,
        created_at,
        created_by: "tester".to_string(),
        deleted: false,
        description: String::new(),
        id,
        last_modified_at: created_at,
        last_modified_by: "tester".to_string(),
        modules: Vec::new(),
        name: name.to_string(),
        required_migration_step: false,
        ds_type: "os".to_string(),
        type_label: "OS".to_string(),
        valid: true,
        version: "1".to_string(),
    }
}

fn device(spec: &DeviceSpec) -> MgmtTarget {
    MgmtTarget {
        links: serde_json::Value::Null,
        controller_id: spec.0.to_string(),
        group: None,
        update_status: spec.1.map(|s| s.to_string()),
        last_controller_request_at: spec.2,
        installed_at: None,
        ip_address: None,
        address: None,
        poll_status: None,
        security_token: None,
        request_attributes: None,
        target_type: None,
        target_type_name: None,
        auto_confirm_active: None,
    }
}

fn action(spec: &ActionSpec) -> Action {
    Action {
        links: serde_json::Value::Null,
        created_at: 0,
        created_by: "tester".to_string(),
        detail_status: spec.3.to_string(),
        force_type: "forced".to_string(),
        id: spec.0,
        last_modified_at: 0,
        last_modified_by: "tester".to_string(),
        status: spec.2.to_string(),
        action_type: spec.1.to_string(),
        rollout: None,
        rollout_name: None,
        weight: None,
    }
}

/// A stand-in for the update server.
struct Server {
    bundles: Vec<(u64, &'static str, u64)>,
    devices: Vec<DeviceSpec>,
    attributes: Vec<(&'static str, &'static str)>,
    actions: Vec<(&'static str, Vec<ActionSpec>)>,
    /// Requests that fail: method and the end of the address.
    failing: Vec<(Method, &'static str)>,
    log: Vec<String>,
}

fn line(request: &Request) -> String {
    let method = match request.method {
        Method::Get => "GET",
        Method::Delete => "DELETE",
        Method::Post => "POST",
        Method::Put => "PUT",
    };
    let path = request.url.strip_prefix(BASE).expect("address below the prefix");
    let query: Vec<String> =
        request.query.iter().map(|p| format!("{}={}", p.name, p.value)).collect();
    let body = match &request.payload {
        Payload::Empty => String::new(),
        Payload::Assignments(list) => {
            let parts: Vec<String> =
                list.iter().map(|a| format!("{}:{}", a.id, a.assignment_type)).collect();
            format!(" [{}]", parts.join(","))
        }
        Payload::Fields(list) => {
            let parts: Vec<String> =
                list.iter().map(|p| format!("{}={}", p.name, p.value)).collect();
            format!(" {{{}}}", parts.join(","))
        }
    };
    if query.is_empty() {
        format!("{} {}{}", method, path, body)
    } else {
        format!("{} {}?{}{}", method, path, query.join("&"), body)
    }
}

fn offset_of(request: &Request) -> usize {
    request.query.iter().find(|p| p.name == "offset").unwrap().value.parse().unwrap()
}

fn device_of(request: &Request) -> String {
    let path = request.url.strip_prefix(BASE).unwrap();
    path.split('/').nth(1).unwrap().to_string()
}

impl Server {
    fn new() -> Server {
        Server {
            bundles: Vec::new(),
            devices: Vec::new(),
            attributes: Vec::new(),
            actions: Vec::new(),
            failing: Vec::new(),
            log: Vec::new(),
        }
    }

    fn answer(&mut self, request: &Request, expect: Expect) -> Event {
        self.log.push(line(request));
        if self.failing.iter().any(|(m, end)| *m == request.method && request.url.ends_with(end)) {
            return Event::Failed(HawkbitError::http(500, "boom"));
        }
        match expect {
            Expect::Bundles => {
                let offset = offset_of(request);
                let end = std::cmp::min(self.bundles.len(), offset + 50);
                let content: Vec<DistributionSet> =
                    self.bundles[offset..end].iter().map(|b| bundle(b.0, b.1, b.2)).collect();
                let size = content.len();
                Event::Bundles(PaginationResponse { content, size, total: self.bundles.len() })
            }
            Expect::Devices => {
                let offset = offset_of(request);
                let end = std::cmp::min(self.devices.len(), offset + 50);
                let content: Vec<MgmtTarget> = self.devices[offset..end].iter().map(device).collect();
                let size = content.len();
                Event::Devices(PaginationResponse { content, size, total: self.devices.len() })
            }
            Expect::Attributes => {
                let id = device_of(request);
                let text = self.attributes.iter().find(|(d, _)| *d == id).map(|(_, t)| *t).unwrap_or("{}");
                Event::Attributes(serde_json::from_str(text).unwrap())
            }
            Expect::Actions => {
                let id = device_of(request);
                let content: Vec<Action> = self
                    .actions
                    .iter()
                    .find(|(d, _)| *d == id)
                    .map(|(_, list)| list.iter().map(action).collect())
                    .unwrap_or_default();
                let size = content.len();
                Event::Actions(PaginationResponse { content, size, total: size })
            }
            Expect::Nothing => Event::Done,
        }
    }

    fn sent(&self, start: &str) -> Vec<&String> {
        self.log.iter().filter(|l| l.starts_with(start)).collect()
    }
}

fn client() -> HawkbitMgmtClient {
    let config =
        HawkbitConfig::new(Some("http://h".to_string()), "u".to_string(), "p".to_string(), None);
    HawkbitMgmtClient::from_config(&config)
}

/// Runs a sweep against the server until it ends.
fn run(server: &mut Server, filter: Option<&str>, policy: ReconcilePolicy) -> (Sweep, Option<String>) {
    let client = client();
    let sweep = Sweep::new(filter.map(|f| f.to_string()), policy);
    let (mut sweep, mut step) = sweep.start(&client);
    let mut rounds = 0;
    loop {
        rounds += 1;
        assert!(rounds < 10_000, "the sweep does not end");
        match step {
            Step::Send { request, expect } => {
                let event = server.answer(&request, expect);
                let next = sweep.advance(&client, event, NOW);
                sweep = next.0;
                step = next.1;
            }
            Step::Finished => return (sweep, None),
            Step::Aborted { reason } => return (sweep, Some(reason.to_string())),
        }
    }
}

fn sweep_report(server: &mut Server) -> FleetReport {
    let (sweep, aborted) = run(server, None, ReconcilePolicy::default());
    assert_eq!(aborted, None);
    assert_eq!(sweep.phase(), Phase::Finished);
    sweep.into_report()
}

#[test]
fn error_device_without_bundle_is_reported_and_not_assigned() {
    let mut server = Server::new();
    server.bundles = vec![(1, "stable EMMC", 10)];
    server.devices = vec![("dev-1", Some("error"), None)];
    server.attributes = vec![("dev-1", r#"{"update_channel": "beta"}"#)];
    let report = sweep_report(&mut server);
    assert!(server.sent("POST").is_empty());
    assert_eq!(server.sent("GET targets/dev-1/attributes").len(), 1);
    assert_eq!(report.failures.len(), 1);
    assert_eq!(report.failures[0].device, "dev-1");
    assert_eq!(report.failures[0].kind, FailureKind::NoBundleForChannel);
    assert_eq!(report.failures[0].detail, "beta");
    assert!(report.assigned.is_empty());
}

#[test]
fn error_device_with_bundle_is_assigned_once() {
    let mut server = Server::new();
    server.bundles = vec![(1, "stable EMMC", 10), (41, "beta EMMC", 100), (42, "beta EMMC", 200)];
    server.devices = vec![("dev-1", Some("error"), None)];
    server.attributes = vec![("dev-1", r#"{"update_channel": "beta"}"#)];
    let report = sweep_report(&mut server);
    assert_eq!(server.sent("POST"), vec!["POST targets/dev-1/assignedDS [42:forced]"]);
    assert!(report.failures.is_empty());
    assert_eq!(report.assigned.len(), 1);
    assert_eq!(report.assigned[0].device, "dev-1");
    assert_eq!(report.assigned[0].bundle, 42);
}

#[test]
fn a_sweep_asks_in_order() {
    let mut server = Server::new();
    server.bundles = vec![(42, "beta EMMC", 200)];
    server.devices = vec![("dev-1", Some("error"), Some(NOW * 1000)), ("dev-2", Some("in_sync"), None)];
    server.attributes = vec![("dev-1", r#"{"update_channel": "beta"}"#)];
    server.actions = vec![(
        "dev-1",
        vec![
            (1, "update", "pending", "scheduled"),
            (2, "update", "pending", "scheduled"),
            (3, "update", "finished", "finished"),
            (4, "update", "pending", "scheduled"),
        ],
    )];
    let report = sweep_report(&mut server);
    assert_eq!(
        server.log,
        vec![
            "GET distributionsets?sort=createdAt:DESC&offset=0&limit=50",
            "GET targets?offset=0&limit=50",
            "PUT targets/dev-1 {requestAttributes=true,name=dev-1,controllerId=dev-1}",
            "GET targets/dev-1/attributes",
            "POST targets/dev-1/assignedDS [42:forced]",
            "GET targets/dev-1/actions?sort=id:DESC&limit=50&q=status==\"pending\"",
            "DELETE targets/dev-1/actions/2?force=false",
            "DELETE targets/dev-1/actions/4?force=false",
            "PUT targets/dev-2 {requestAttributes=true,name=dev-2,controllerId=dev-2}",
            "GET targets/dev-2/actions?sort=id:DESC&limit=50&q=status==\"pending\"",
        ]
    );
    assert_eq!(report.canceled.len(), 2);
    assert_eq!((report.canceled[0].device.as_str(), report.canceled[0].action), ("dev-1", 2));
    assert_eq!((report.canceled[1].device.as_str(), report.canceled[1].action), ("dev-1", 4));
    assert_eq!(report.status.count("error"), 1);
    assert_eq!(report.status.count("in_sync"), 1);
    assert_eq!(report.last_seen.count("today"), 1);
    assert_eq!(report.last_seen.len(), 1);
}

#[test]
fn healthy_devices_are_not_remediated() {
    let mut server = Server::new();
    server.bundles = vec![(42, "beta EMMC", 200)];
    server.devices = vec![("a", Some("in_sync"), None), ("b", None, None), ("c", Some("pending"), None)];
    server.attributes = vec![("a", r#"{"update_channel": "beta"}"#)];
    let report = sweep_report(&mut server);
    assert!(server.sent("POST").is_empty());
    assert!(server.log.iter().all(|l| !l.contains("/attributes")));
    assert_eq!(server.log.iter().filter(|l| l.contains("/actions?")).count(), 3);
    assert!(report.failures.is_empty());
    assert_eq!(report.status.len(), 2);
}

#[test]
fn listings_are_read_page_by_page() {
    let mut server = Server::new();
    for i in 0..120u64 {
        server.bundles.push((i, "stable EMMC", i));
    }
    let names: Vec<&'static str> =
        (0..75).map(|i| &*Box::leak(format!("dev-{}", i).into_boxed_str())).collect();
    server.devices = names.iter().map(|n| (*n, Some("in_sync"), None)).collect();
    let (sweep, aborted) = run(&mut server, Some("name==dev*"), ReconcilePolicy::default());
    assert_eq!(aborted, None);
    assert_eq!(
        server.sent("GET distributionsets"),
        vec![
            "GET distributionsets?sort=createdAt:DESC&offset=0&limit=50",
            "GET distributionsets?sort=createdAt:DESC&offset=50&limit=50",
            "GET distributionsets?sort=createdAt:DESC&offset=100&limit=50",
        ]
    );
    assert_eq!(
        server.sent("GET targets?"),
        vec!["GET targets?q=name==dev*&offset=0&limit=50", "GET targets?q=name==dev*&offset=50&limit=50"]
    );
    assert_eq!(sweep.catalog().get("stable EMMC").unwrap().id, 119);
    assert_eq!(sweep.report().status.count("in_sync"), 75);
    assert_eq!(server.sent("PUT").len(), 75);
}

#[test]
fn empty_fleet_finishes_at_once() {
    let mut server = Server::new();
    let report = sweep_report(&mut server);
    assert_eq!(server.log.len(), 2);
    let figures = report.summary();
    assert!(figures.status.is_empty());
    assert!(figures.last_seen.is_empty());
    assert_eq!((figures.canceled, figures.assigned, figures.failures), (0, 0, 0));
}

#[test]
fn failure_to_read_the_catalog_ends_the_sweep() {
    let mut server = Server::new();
    server.devices = vec![("dev-1", Some("error"), None)];
    server.failing = vec![(Method::Get, "/distributionsets")];
    let (sweep, aborted) = run(&mut server, None, ReconcilePolicy::default());
    assert_eq!(aborted.as_deref(), Some("HTTP error 500: boom"));
    assert_eq!(sweep.phase(), Phase::Aborted);
    assert_eq!(server.log.len(), 1);
}

#[test]
fn failure_to_read_the_devices_ends_the_sweep() {
    let mut server = Server::new();
    server.devices = vec![("dev-1", Some("error"), None)];
    server.failing = vec![(Method::Get, "/targets")];
    let (sweep, aborted) = run(&mut server, None, ReconcilePolicy::default());
    assert_eq!(aborted.as_deref(), Some("HTTP error 500: boom"));
    assert_eq!(sweep.phase(), Phase::Aborted);
    assert_eq!(server.log.len(), 2);
}

#[test]
fn failures_of_one_device_do_not_end_the_sweep() {
    let mut server = Server::new();
    server.bundles = vec![(42, "beta EMMC", 200)];
    server.devices = vec![
        ("dev-1", Some("error"), None),
        ("dev-2", Some("error"), None),
        ("dev-3", Some("error"), None),
        ("dev-4", Some("in_sync"), None),
    ];
    server.attributes = vec![
        ("dev-2", r#"{"update_channel": "beta"}"#),
        ("dev-3", r#"{"update_channel": "beta"}"#),
    ];
    server.actions = vec![
        ("dev-3", vec![(1, "update", "updating", "x"), (2, "update", "pending", "x"), (3, "update", "pending", "x")]),
        ("dev-4", vec![(5, "update", "pending", "x"), (6, "update", "pending", "x")]),
    ];
    server.failing = vec![
        (Method::Put, "/targets/dev-1"),
        (Method::Get, "/targets/dev-1/attributes"),
        (Method::Post, "/targets/dev-2/assignedDS"),
        (Method::Get, "/targets/dev-2/actions"),
        (Method::Delete, "/targets/dev-3/actions/2"),
    ];
    let report = sweep_report(&mut server);
    let failures: Vec<(&str, FailureKind, &str)> =
        report.failures.iter().map(|f| (f.device.as_str(), f.kind, f.detail.as_str())).collect();
    assert_eq!(
        failures,
        vec![
            ("dev-1", FailureKind::RequestFailed, "HTTP error 500: boom"),
            ("dev-2", FailureKind::RequestFailed, "HTTP error 500: boom"),
            ("dev-2", FailureKind::RequestFailed, "HTTP error 500: boom"),
            ("dev-3", FailureKind::RequestFailed, "HTTP error 500: boom"),
        ]
    );
    let canceled: Vec<(&str, i64)> =
        report.canceled.iter().map(|c| (c.device.as_str(), c.action)).collect();
    assert_eq!(canceled, vec![("dev-3", 3), ("dev-4", 6)]);
    let assigned: Vec<(&str, u64)> =
        report.assigned.iter().map(|a| (a.device.as_str(), a.bundle)).collect();
    assert_eq!(assigned, vec![("dev-3", 42)]);
    assert_eq!(report.status.count("error"), 3);
    let figures = report.summary();
    assert_eq!((figures.canceled, figures.assigned, figures.failures), (2, 1, 4));
}

#[test]
fn device_without_channel_is_reported() {
    let mut server = Server::new();
    server.bundles = vec![(42, "beta EMMC", 200)];
    server.devices = vec![("dev-1", Some("error"), None)];
    server.attributes = vec![("dev-1", r#"{"build_channel": "beta"}"#)];
    let report = sweep_report(&mut server);
    assert!(server.sent("POST").is_empty());
    assert_eq!(report.failures.len(), 1);
    assert_eq!(report.failures[0].kind, FailureKind::MissingChannel);
    assert_eq!(report.failures[0].detail, "");
    assert_eq!(server.sent("GET targets/dev-1/actions").len(), 1);
}

#[test]
fn policy_reaches_the_reconciler() {
    let mut server = Server::new();
    server.devices = vec![("dev-1", None, None)];
    server.actions =
        vec![("dev-1", vec![(1, "update", "updating", "running"), (2, "update", "pending", "running")])];
    let spared = sweep_report(&mut server);
    assert!(spared.canceled.is_empty());
    let mut again = Server::new();
    again.devices = server.devices.clone();
    again.actions = server.actions.clone();
    let (sweep, aborted) = run(&mut again, None, ReconcilePolicy { spare_running: false });
    assert_eq!(aborted, None);
    assert_eq!(sweep.report().canceled.len(), 1);
    assert_eq!(again.sent("DELETE"), vec!["DELETE targets/dev-1/actions/2?force=false"]);
}

#[test]
fn summary_counts_by_label() {
    let day = 86_400 * 1000;
    let mut server = Server::new();
    server.devices = vec![
        ("a", Some("in_sync"), Some(NOW * 1000)),
        ("b", Some("pending"), Some(NOW * 1000 - 2 * day)),
        ("c", Some("in_sync"), Some(NOW * 1000 - 400 * day)),
        ("d", None, None),
        ("e", Some("in_sync"), Some(NOW * 1000 - day)),
    ];
    let figures = sweep_report(&mut server).summary();
    let status: Vec<(&str, usize)> =
        figures.status.iter().map(|c| (c.label.as_str(), c.devices)).collect();
    assert_eq!(status, vec![("in_sync", 3), ("pending", 1)]);
    let seen: Vec<(&str, usize)> =
        figures.last_seen.iter().map(|c| (c.label.as_str(), c.devices)).collect();
    assert_eq!(seen, vec![("today", 2), ("last_3_days", 1), ("longer", 1)]);
}

#[test]
fn an_answer_out_of_turn_ends_the_sweep() {
    let client = client();
    let (sweep, step) = Sweep::new(None, ReconcilePolicy::default()).start(&client);
    assert!(matches!(step, Step::Send { expect: Expect::Bundles, .. }));
    assert_eq!(sweep.phase(), Phase::LoadingCatalog);
    let (sweep, step) = sweep.advance(&client, Event::Done, NOW);
    match step {
        Step::Aborted { reason } => assert_eq!(reason.message(), "unexpected answer"),
        other => panic!("not aborted: {:?}", other),
    }
    assert_eq!(sweep.phase(), Phase::Aborted);
    let (sweep, step) = sweep.advance(&client, Event::Done, NOW);
    assert!(matches!(step, Step::Aborted { .. }));
    assert_eq!(sweep.phase(), Phase::Aborted);
}

#[test]
fn a_sweep_starts_once() {
    let client = client();
    let fresh = Sweep::new(None, ReconcilePolicy::default());
    assert_eq!(fresh.phase(), Phase::Ready);
    let (sweep, step) = fresh.advance(&client, Event::Done, NOW);
    assert!(matches!(step, Step::Aborted { .. }));
    let (sweep, step) = sweep.start(&client);
    assert!(matches!(step, Step::Aborted { .. }));
    assert_eq!(sweep.phase(), Phase::Aborted);
}

#[test]
fn a_finished_sweep_stays_finished() {
    let mut server = Server::new();
    let (sweep, _) = run(&mut server, None, ReconcilePolicy::default());
    let client = client();
    let (sweep, step) = sweep.advance(&client, Event::Done, NOW);
    assert!(matches!(step, Step::Finished));
    assert_eq!(sweep.phase(), Phase::Finished);
}

#[test]
fn an_oversized_page_ends_the_sweep() {
    let client = client();
    let (sweep, _) = Sweep::new(None, ReconcilePolicy::default()).start(&client);
    let first = PaginationResponse { content: vec![bundle(1, "a", 1)], size: 1, total: usize::MAX };
    let (sweep, step) = sweep.advance(&client, Event::Bundles(first), NOW);
    assert!(matches!(step, Step::Send { .. }));
    let huge = PaginationResponse { content: Vec::new(), size: usize::MAX, total: usize::MAX };
    let (sweep, step) = sweep.advance(&client, Event::Bundles(huge), NOW);
    match step {
        Step::Aborted { reason } => assert_eq!(reason.message(), "page size out of range"),
        other => panic!("not aborted: {:?}", other),
    }
    assert_eq!(sweep.phase(), Phase::Aborted);
}

#[test]
fn the_clock_can_drive_a_sweep() {
    let client = client();
    let (sweep, _) = Sweep::new(None, ReconcilePolicy::default()).start(&client);
    let none = PaginationResponse { content: Vec::new(), size: 0, total: 0 };
    let (sweep, _) = sweep.advance_now(&client, Event::Bundles(none));
    let one = PaginationResponse {
        content: vec![device(&("dev-1", Some("in_sync"), Some(0)))],
        size: 1,
        total: 1,
    };
    let (sweep, step) = sweep.advance_now(&client, Event::Devices(one));
    assert!(matches!(step, Step::Send { expect: Expect::Nothing, .. }));
    let (sweep, step) = sweep.advance_now(&client, Event::Done);
    assert!(matches!(step, Step::Send { expect: Expect::Actions, .. }));
    assert_eq!(sweep.report().last_seen.count("longer"), 1);
}
