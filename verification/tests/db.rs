use blog_core::db::{
    update_database_url_env, DbHandles, Drain, DrainAction, PoolState, Retired,
    DRAIN_INTERVAL_SECS, DRAIN_MAX_ATTEMPTS, POOL_MAX_SIZE,
};

fn busy() -> PoolState {
    PoolState { connections: 3, idle_connections: 2 }
}

fn idle() -> PoolState {
    PoolState { connections: 3, idle_connections: 3 }
}

#[test]
fn new_handles_have_nothing_draining() {
    let handles = DbHandles::new(1u32, "a.db".to_string());
    assert_eq!(*handles.current_pool(), 1);
    assert_eq!(handles.draining, None);
    assert_eq!(handles.primary_path, "a.db");
}

#[test]
fn swap_retires_the_current_pool() {
    let mut handles = DbHandles::new(1u32, "a.db".to_string());
    let before = *handles.current_pool();
    let old_path = handles.swap_primary(2, "b.db".to_string());
    assert_eq!(old_path, "a.db");
    assert_eq!(*handles.current_pool(), 2);
    assert_eq!(handles.primary_path, "b.db");
    assert_eq!(
        handles.draining,
        Some(Retired { pool: before, path: "a.db".to_string() })
    );
}

#[test]
fn second_swap_replaces_the_draining_slot() {
    let mut handles = DbHandles::new(1u32, "a.db".to_string());
    handles.swap_primary(2, "b.db".to_string());
    let old_path = handles.swap_primary(3, "c.db".to_string());
    assert_eq!(old_path, "b.db");
    assert_eq!(
        handles.draining,
        Some(Retired { pool: 2, path: "b.db".to_string() })
    );
}

#[test]
fn switch_there_and_back_serves_the_first_database() {
    let mut handles = DbHandles::new("pool-a".to_string(), "a.db".to_string());
    handles.swap_primary("pool-b".to_string(), "b.db".to_string());
    handles.swap_primary("pool-a".to_string(), "a.db".to_string());
    assert_eq!(handles.current_pool(), "pool-a");
    assert_eq!(handles.primary_path, "a.db");
    assert_eq!(
        handles.draining,
        Some(Retired { pool: "pool-b".to_string(), path: "b.db".to_string() })
    );
}

#[test]
fn clear_draining_hands_out_the_retired_pool() {
    let mut handles = DbHandles::new(1u32, "a.db".to_string());
    assert_eq!(handles.clear_draining(), None);
    handles.swap_primary(2, "b.db".to_string());
    let retired = handles.clear_draining();
    assert_eq!(retired, Some(Retired { pool: 1, path: "a.db".to_string() }));
    assert_eq!(handles.draining, None);
    assert_eq!(*handles.current_pool(), 2);
}

#[test]
fn drain_deletes_when_idle_at_first_poll() {
    let (next, action) = Drain::start().observe(idle());
    assert_eq!(next, Drain::Deleted);
    assert_eq!(action, DrainAction::Delete);
}

#[test]
fn drain_pool_without_connections_is_idle() {
    let state = PoolState { connections: 0, idle_connections: 0 };
    assert!(state.is_idle());
    assert!(!busy().is_idle());
}

#[test]
fn drain_sleeps_while_busy() {
    let (next, action) = Drain::start().observe(busy());
    assert_eq!(next, Drain::Polling(1));
    assert_eq!(action, DrainAction::Sleep);
    let (next, action) = next.observe(busy());
    assert_eq!(next, Drain::Polling(2));
    assert_eq!(action, DrainAction::Sleep);
}

#[test]
fn drain_gives_up_after_the_retry_bound() {
    let mut drain = Drain::start();
    let mut sleeps = 0;
    let mut last = DrainAction::Nothing;
    for _ in 0..61 {
        let (next, action) = drain.observe(busy());
        drain = next;
        last = action;
        if action == DrainAction::Sleep {
            sleeps += 1;
        }
    }
    assert_eq!(sleeps, 60);
    assert_eq!(last, DrainAction::Abandon);
    assert_eq!(drain, Drain::Abandoned);
    let (next, action) = drain.observe(idle());
    assert_eq!(next, Drain::Abandoned);
    assert_eq!(action, DrainAction::Nothing);
}

#[test]
fn drain_deletes_at_the_last_poll_in_time() {
    let mut seen = vec![busy(); 60];
    seen.push(idle());
    assert_eq!(Drain::run(&seen), Drain::Deleted);
    let mut late = vec![busy(); 61];
    late.push(idle());
    assert_eq!(Drain::run(&late), Drain::Abandoned);
}

#[test]
fn drain_run_counts_busy_polls() {
    assert_eq!(Drain::run(&Vec::new()), Drain::Polling(0));
    assert_eq!(Drain::run(&vec![busy(); 7]), Drain::Polling(7));
    assert_eq!(Drain::run(&vec![busy(); 60]), Drain::Polling(60));
    assert_eq!(Drain::run(&vec![busy(), idle(), busy()]), Drain::Deleted);
}

#[test]
fn drain_deletes_only_once() {
    let (drain, first) = Drain::start().observe(idle());
    let (_, second) = drain.observe(idle());
    assert_eq!(first, DrainAction::Delete);
    assert_eq!(second, DrainAction::Nothing);
}

#[test]
fn pool_and_drain_constants() {
    assert_eq!(POOL_MAX_SIZE, 16);
    assert_eq!(DRAIN_MAX_ATTEMPTS, 60);
    assert_eq!(DRAIN_INTERVAL_SECS, 10);
}

#[test]
fn env_update_replaces_existing_entry() {
    let updated = update_database_url_env("A=1\nDATABASE_URL=./old.db\nB=2\n", "./new.db");
    assert_eq!(updated, "A=1\nDATABASE_URL=./new.db\nB=2");
}

#[test]
fn env_update_appends_missing_entry() {
    assert_eq!(update_database_url_env("A=1", "./new.db"), "A=1\nDATABASE_URL=./new.db");
    assert_eq!(update_database_url_env("", "./new.db"), "DATABASE_URL=./new.db");
}

#[test]
fn env_update_replaces_first_entry_only() {
    let updated = update_database_url_env("DATABASE_URL=a\r\nDATABASE_URL=b", "c");
    assert_eq!(updated, "DATABASE_URL=c\nDATABASE_URL=b");
}
