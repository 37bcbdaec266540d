use gym_helper::membership::{delete_discipline, Discipline, Membership, NewDisciplineRequest};

fn create_test_discipline() -> Discipline {
    let now = chrono::Utc::now().timestamp();
    Discipline {
        id: 1,
        name: "CrossFit".to_string(),
        description: Some("High-intensity functional fitness".to_string()),
        created_at: now,
        updated_at: now,
        deleted_at: None,
    }
}

fn plan(id: i32, discipline_id: i32) -> Membership {
    Membership {
        id,
        name: "Plan Básico".to_string(),
        description: Some("Plan de entrenamiento básico".to_string()),
        discipline_id,
        total_classes: 12,
        active: true,
        duration_days: 30,
        created_at: 0,
        updated_at: 0,
        deleted_at: None,
    }
}

#[test]
fn test_discipline_model_structure() {
    let discipline = create_test_discipline();

    assert_eq!(discipline.id, 1);
    assert_eq!(discipline.name, "CrossFit");
    assert_eq!(discipline.description, Some("High-intensity functional fitness".to_string()));
    assert!(discipline.deleted_at.is_none());
}

#[test]
fn test_discipline_request_without_description() {
    let request = NewDisciplineRequest { name: "Yoga".to_string(), description: None };

    assert_eq!(request.name, "Yoga");
    assert!(request.description.is_none());
}

#[test]
fn test_discipline_name_validation() {
    let valid_names = vec![
        "CrossFit".to_string(),
        "Yoga".to_string(),
        "Pilates".to_string(),
        "Funcional".to_string(),
    ];

    for name in valid_names {
        let request = NewDisciplineRequest {
            name: name.clone(),
            description: Some("Test description".to_string()),
        };
        assert_eq!(request.name, name);
        assert!(!name.is_empty());
        assert!(name.len() >= 3);
    }
}

#[test]
fn test_discipline_error_messages() {
    let error_messages = vec![
        "Error creating discipline",
        "Error deleting discipline",
        "Error activating discipline",
    ];

    for msg in error_messages {
        assert!(msg.contains("Error"));
        assert!(msg.contains("discipline"));
    }
}

#[test]
fn test_membership_error_messages() {
    let error_messages = vec![
        "Error creating membership",
        "Error deleting membership",
        "Error activating membership",
    ];

    for msg in error_messages {
        assert!(msg.contains("Error"));
        assert!(msg.contains("membership"));
    }
}

#[test]
fn test_success_messages() {
    let success_messages = vec![
        "Discipline created successfully",
        "Discipline deleted successfully",
        "Discipline activated successfully",
        "Membership created successfully",
        "Membership deleted successfully",
        "Membership activated successfully",
    ];

    for msg in success_messages {
        assert!(msg.contains("successfully"));
        assert!(msg.contains("Discipline") || msg.contains("Membership"));
    }
}

#[test]
fn test_common_disciplines() {
    let disciplines = vec![
        ("CrossFit", "High-intensity functional fitness"),
        ("Yoga", "Mind-body practice combining physical postures"),
        ("Pilates", "Low-impact exercise method"),
        ("Funcional", "Functional movement training"),
        ("Boxeo", "Combat sport training"),
        ("Natación", "Swimming training"),
    ];

    for (name, description) in disciplines {
        let request = NewDisciplineRequest {
            name: name.to_string(),
            description: Some(description.to_string()),
        };

        assert!(!request.name.is_empty());
        assert!(request.description.is_some());
        assert!(request.description.as_ref().unwrap().len() > 10);
    }
}

#[test]
fn deleting_a_discipline_deactivates_its_plans() {
    let d = create_test_discipline();
    let plans = vec![plan(1, 1), plan(2, 2), plan(3, 1)];
    let (deleted, after) = delete_discipline(&d, &plans, 7_000);
    assert_eq!(deleted.deleted_at, Some(7_000));
    assert_eq!(deleted.name, "CrossFit");
    assert_eq!(after.len(), 3);
    assert!(!after[0].active);
    assert_eq!(after[0].deleted_at, Some(7_000));
    assert!(after[1].active);
    assert_eq!(after[1].deleted_at, None);
    assert!(!after[2].active);
    assert_eq!(after[2].id, 3);
    assert_eq!(after[2].total_classes, 12);
}

#[test]
fn plans_and_disciplines_reactivate() {
    let p = plan(4, 1).deactivated(100);
    assert!(!p.active);
    assert_eq!(p.deleted_at, Some(100));
    let back = p.activated();
    assert!(back.active);
    assert_eq!(back.deleted_at, None);
    let d = create_test_discipline().soft_deleted(50).activated();
    assert_eq!(d.deleted_at, None);
}
