use drawcore::{
    try_load_resources, AppState, Fetch, HorizontalAlign, LoadState, Resource, ResourceConstructor,
    ResourceLoaderManager, TextureFilter, TextureFormat, VerticalAlign,
};

#[test]
fn add_then_completion_stages_one_entry() {
    let mut m = ResourceLoaderManager::new();
    let id = m.add("a.png");
    assert_eq!(id, 0);
    assert_eq!(m.state(id), Some(LoadState::Requested));
    let staged = m.try_load(&vec![Fetch::Ready(vec![1, 2, 3])]);
    assert_eq!(staged.len(), 1);
    assert_eq!(staged[0].id, id);
    assert_eq!(staged[0].bytes, vec![1, 2, 3]);
    assert_eq!(m.path(id).unwrap(), "a.png");
    assert_eq!(m.state(id), Some(LoadState::BytesReady));
    assert!(!m.is_loaded(id));
}

#[test]
fn poll_without_completion_stages_nothing() {
    let mut m = ResourceLoaderManager::new();
    m.add("a.png");
    m.add("b.png");
    assert!(m.try_load(&vec![Fetch::Pending, Fetch::Pending]).is_empty());
    assert!(m.try_load(&vec![]).is_empty());
    assert_eq!(m.requested(), vec![0, 1]);
}

#[test]
fn failed_fetch_is_never_tried_again() {
    let mut m = ResourceLoaderManager::new();
    let id = m.add("a.png");
    assert!(m.try_load(&vec![Fetch::Error("not found".to_string())]).is_empty());
    assert_eq!(m.state(id), Some(LoadState::Failed));
    assert_eq!(m.error(id).unwrap(), "not found");
    assert!(m.requested().is_empty());
    assert!(m.try_load(&vec![Fetch::Ready(vec![9])]).is_empty());
    assert_eq!(m.state(id), Some(LoadState::Failed));
    assert_eq!(m.error(id).unwrap(), "not found");
}

#[test]
fn is_loaded_unchanged_by_idle_poll() {
    let mut m = ResourceLoaderManager::new();
    let a = m.add("a.png");
    let b = m.add("b.png");
    m.try_load(&vec![Fetch::Ready(vec![1]), Fetch::Pending]);
    m.finish(a, &Ok(()));
    let before = (m.is_loaded(a), m.is_loaded(b));
    assert_eq!(before, (true, false));
    m.try_load(&vec![Fetch::Pending, Fetch::Pending]);
    assert_eq!((m.is_loaded(a), m.is_loaded(b)), before);
}

#[test]
fn parse_errors_are_all_collected() {
    let mut m = ResourceLoaderManager::new();
    for p in ["a", "b", "c", "d"] {
        m.add(p);
    }
    let staged = m.try_load(&vec![
        Fetch::Ready(vec![]),
        Fetch::Ready(vec![]),
        Fetch::Ready(vec![]),
        Fetch::Pending,
    ]);
    assert_eq!(staged.iter().map(|s| s.id).collect::<Vec<_>>(), vec![0, 1, 2]);
    let errors = m.complete(&vec![
        (0, Err("bad a".to_string())),
        (1, Ok(())),
        (2, Err("bad c".to_string())),
        (3, Err("not ready".to_string())),
        (7, Err("unknown".to_string())),
    ]);
    assert_eq!(errors, vec!["bad a".to_string(), "bad c".to_string()]);
    assert_eq!(m.state(0), Some(LoadState::Failed));
    assert_eq!(m.error(0).unwrap(), "bad a");
    assert!(m.is_loaded(1));
    assert_eq!(m.state(2), Some(LoadState::Failed));
    assert_eq!(m.state(3), Some(LoadState::Requested));
    assert_eq!(m.error(3), None);
    assert_eq!(m.state(7), None);
    assert!(!m.is_loaded(7));
}

#[test]
fn finish_reports_failure_once() {
    let mut m = ResourceLoaderManager::new();
    let id = m.add("a");
    assert!(!m.finish(id, &Err("early".to_string())));
    assert_eq!(m.state(id), Some(LoadState::Requested));
    m.try_load(&vec![Fetch::Ready(vec![0])]);
    assert!(m.finish(id, &Err("late".to_string())));
    assert!(!m.finish(id, &Ok(())));
    assert_eq!(m.state(id), Some(LoadState::Failed));
    assert_eq!(m.len(), 1);
}

struct Text {
    file: String,
    content: Option<String>,
}

impl ResourceConstructor for Text {
    fn new(file: &str) -> Self {
        Text { file: file.to_string(), content: None }
    }
}

impl Resource<Vec<String>> for Text {
    fn parse(&mut self, ctx: &mut Vec<String>, data: Vec<u8>) -> Result<(), String> {
        ctx.push(self.file.clone());
        match String::from_utf8(data) {
            Ok(s) => {
                self.content = Some(s);
                Ok(())
            }
            Err(_) => Err(format!("{} is not text", self.file)),
        }
    }

    fn is_loaded(&self) -> bool {
        self.content.is_some()
    }
}

#[test]
fn poll_parses_every_arrived_resource() {
    let mut m = ResourceLoaderManager::new();
    let mut assets: Vec<Text> = Vec::new();
    for p in ["a.txt", "b.bin", "c.txt"] {
        m.add(p);
        assets.push(Text::new(p));
    }
    let mut log: Vec<String> = Vec::new();
    let report = try_load_resources(
        &mut m,
        &mut log,
        &mut assets,
        &vec![Fetch::Ready(b"hi".to_vec()), Fetch::Ready(vec![0xff, 0xfe]), Fetch::Pending],
    );
    assert_eq!(log, vec!["a.txt".to_string(), "b.bin".to_string()]);
    assert_eq!(report.outcomes.len(), 2);
    assert_eq!(report.errors, vec!["b.bin is not text".to_string()]);
    assert!(m.is_loaded(0) && assets[0].is_loaded());
    assert_eq!(m.state(1), Some(LoadState::Failed));
    assert_eq!(m.state(2), Some(LoadState::Requested));
    let report = try_load_resources(&mut m, &mut log, &mut assets, &vec![Fetch::Pending, Fetch::Pending, Fetch::Ready(b"x".to_vec())]);
    assert!(report.errors.is_empty());
    assert!(m.is_loaded(2));
    assert_eq!(assets[2].content.as_deref(), Some("x"));
}

fn takes_state<S: AppState>(_s: &S) -> bool {
    true
}

#[test]
fn unit_is_an_app_state() {
    assert!(takes_state(&()));
}

#[test]
fn format_enums_compare() {
    assert_ne!(TextureFormat::Rgba, TextureFormat::R8);
    assert_eq!(TextureFilter::Linear, TextureFilter::Linear);
    assert_ne!(HorizontalAlign::Left, HorizontalAlign::Right);
    assert_eq!(VerticalAlign::Center, VerticalAlign::Center);
}

#[test]
fn only_staged_resources_are_parsed() {
    let mut m = ResourceLoaderManager::new();
    let mut assets: Vec<Text> = Vec::new();
    for p in ["a.txt", "b.txt", "c.txt"] {
        m.add(p);
        assets.push(Text::new(p));
    }
    let mut log: Vec<String> = Vec::new();
    let report = try_load_resources(&mut m, &mut log, &mut assets, &vec![Fetch::Pending, Fetch::Pending]);
    assert!(report.outcomes.is_empty() && report.errors.is_empty());
    assert!(log.is_empty());
    try_load_resources(&mut m, &mut log, &mut assets, &vec![Fetch::Error("gone".to_string()), Fetch::Ready(b"b".to_vec())]);
    assert_eq!(log, vec!["b.txt".to_string()]);
    assert_eq!(m.state(0), Some(LoadState::Failed));
    try_load_resources(&mut m, &mut log, &mut assets, &vec![Fetch::Ready(b"a".to_vec()), Fetch::Ready(b"b".to_vec())]);
    assert_eq!(log, vec!["b.txt".to_string()]);
    assert!(!assets[0].is_loaded() && !assets[2].is_loaded());
}
