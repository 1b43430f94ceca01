use std::sync::Arc;
use turtle_control::model::Turtle;
use turtle_control::registry::TurtleManager;

#[test]
fn registering_distinct_agents_concurrently() {
    let rt = tokio::runtime::Runtime::new().unwrap();
    rt.block_on(async {
        let manager: Arc<tokio::sync::Mutex<TurtleManager<Arc<tokio::sync::Mutex<Turtle>>>>> =
            Arc::new(tokio::sync::Mutex::new(TurtleManager::new()));
        let mut tasks = Vec::new();
        for id in 0..32usize {
            let m = manager.clone();
            tasks.push(tokio::spawn(async move {
                let handle = Arc::new(tokio::sync::Mutex::new(Turtle::new(id)));
                m.lock().await.add_turtle(id, handle)
            }));
        }
        for t in tasks {
            assert!(t.await.unwrap());
        }
        let m = manager.lock().await;
        assert_eq!(m.len(), 32);
        for id in 0..32usize {
            let h = m.get_turtle(id).unwrap();
            assert_eq!(h.lock().await.id, id);
        }
        assert!(m.get_turtle(32).is_none());
    });
}

#[test]
fn duplicate_registration_keeps_first() {
    let mut m: TurtleManager<&str> = TurtleManager::new();
    assert!(m.add_turtle(1, "first"));
    assert!(!m.add_turtle(1, "second"));
    assert_eq!(m.len(), 1);
    assert_eq!(m.get_turtle(1), Some(&"first"));
}

#[test]
fn lookup_of_unknown_agent_is_none() {
    let m: TurtleManager<u8> = TurtleManager::new();
    assert_eq!(m.get_turtle(0), None);
    assert_eq!(m.len(), 0);
}
