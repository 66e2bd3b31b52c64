use productized_shell::admission::check_worker_view;
use productized_shell::records::{M3ProjectRole, M3ProjectRoleSessionView, SupervisorBinding};

fn binding() -> SupervisorBinding {
    SupervisorBinding {
        binding_id: "binding-1".into(),
        project_id: "project-alpha".into(),
        role_session_id: "session:supervisor".into(),
        actor_id: "actor:supervisor".into(),
    }
}

fn worker() -> M3ProjectRoleSessionView {
    M3ProjectRoleSessionView {
        project_id: "project-alpha".into(),
        role: M3ProjectRole::Worker,
        role_session_id: "session:worker".into(),
        actor_id: "actor:worker".into(),
    }
}

#[test]
fn worker_view_checks_come_in_order() {
    assert_eq!(check_worker_view(&binding(), &worker()), Ok(()));
    let mut w = worker();
    w.role = M3ProjectRole::ProjectSupervisor;
    w.actor_id = String::new();
    assert_eq!(check_worker_view(&binding(), &w).unwrap_err(), "worker_role_mismatch");
    let mut w = worker();
    w.actor_id = " ".into();
    assert_eq!(check_worker_view(&binding(), &w).unwrap_err(), "worker_view_unbound");
    let mut w = worker();
    w.role_session_id = String::new();
    assert_eq!(check_worker_view(&binding(), &w).unwrap_err(), "worker_view_unbound");
    let mut w = worker();
    w.project_id = "project-beta".into();
    assert_eq!(check_worker_view(&binding(), &w).unwrap_err(), "worker_project_mismatch");
}
