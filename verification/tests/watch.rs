use scruters::groups::Groups;
use scruters::watch::{add_auto_generated_groups, names_to_retain, plan_refresh};
use scruters::workspace::{Package, Target, WorkspaceMetadata};

fn workspace() -> WorkspaceMetadata {
    WorkspaceMetadata {
        packages: vec![Package {
            name: "p".to_string(),
            targets: vec![
                Target { name: "p".to_string(), kind: vec!["lib".to_string()] },
                Target { name: "it".to_string(), kind: vec!["test".to_string()] },
                Target { name: "b".to_string(), kind: vec!["bench".to_string()] },
            ],
        }],
    }
}

#[test]
fn a_change_keeps_and_rediscovers_every_identity() {
    let plan = plan_refresh(&workspace());
    let retain: Vec<&str> = plan.retain.iter().map(|n| n.as_str()).collect();
    assert_eq!(retain, vec!["p::lib [auto]", "p::test::it [auto]", "p::tests [auto]"]);
    assert_eq!(plan.discover.len(), 3);
    let again: Vec<String> =
        names_to_retain(&plan.discover).iter().map(|n| n.as_str().to_string()).collect();
    assert_eq!(again, retain);
}

#[test]
fn an_empty_workspace_keeps_nothing() {
    let plan = plan_refresh(&WorkspaceMetadata { packages: vec![] });
    assert!(plan.retain.is_empty());
    assert!(plan.discover.is_empty());
}

#[test]
fn empty_groups_are_added_once() {
    let mut groups = Groups::new();
    add_auto_generated_groups(&mut groups, &workspace());
    add_auto_generated_groups(&mut groups, &workspace());
    let names: Vec<String> =
        groups.as_slice().iter().map(|g| g.name().as_str().to_string()).collect();
    assert_eq!(names, vec!["p::lib [auto]", "p::tests [auto]", "p::test::it [auto]"]);
    assert!(groups.as_slice().iter().all(|g| g.tests().is_empty()));
}
