use kiroshi::{Race, PC};

#[test]
fn race_record_holds_its_fields() {
    let r = Race { id: 3, name: String::from("Dakar"), created_at: String::from("2024-01-05 10:00:00") };
    let c = r.clone();
    assert_eq!(c, r);
    assert_eq!(c.name, "Dakar");
}

#[test]
fn checkpoint_record_holds_its_fields() {
    let p = PC { id: 7, race_id: 3, pc_number: 2, created_at: String::from("2024-01-05 10:05:00") };
    assert_eq!(p.clone(), p);
    assert_eq!(p.pc_number, 2);
    assert_eq!(p.race_id, 3);
}
