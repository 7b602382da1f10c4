use hash_dedup::{
    hex_to_binary_vector, is_similar, l1_distance, matching_identities, CheckAndRecord, Lookup,
    Neighbour, Outcome, SaveHash, Step, SIMILARITY_THRESHOLD,
};

fn n(id: i64, distance: u64) -> Neighbour {
    Neighbour { id, distance }
}

#[test]
fn threshold_is_strict() {
    assert!(!is_similar(SIMILARITY_THRESHOLD));
    assert!(is_similar(SIMILARITY_THRESHOLD - 1));
    assert!(is_similar(0));
    assert!(!is_similar(6));
}

#[test]
fn neighbour_at_threshold_is_not_a_match() {
    assert_eq!(matching_identities(&vec![n(1, 5)]), Vec::<i64>::new());
    assert_eq!(matching_identities(&vec![n(1, 4)]), vec![1]);
}

#[test]
fn matches_keep_search_order() {
    let ns = vec![n(7, 0), n(3, 9), n(5, 2), n(9, 5), n(2, 4)];
    assert_eq!(matching_identities(&ns), vec![7, 5, 2]);
}

#[test]
fn empty_search_has_no_matches() {
    assert_eq!(matching_identities(&Vec::new()), Vec::<i64>::new());
    let lookup: Lookup<&str> = Lookup::new(&Vec::new());
    assert_eq!(lookup.step(), Step::Finish(Outcome::Matches));
    assert!(lookup.into_found().is_empty());
}

#[test]
fn lookup_gathers_records_of_matching_neighbours() {
    let mut lookup: Lookup<&str> = Lookup::new(&vec![n(1, 0), n(2, 7), n(3, 3)]);
    assert_eq!(lookup.step(), Step::FetchRecords(1));
    lookup.on_records(Ok(vec!["a", "b"]));
    assert_eq!(lookup.step(), Step::FetchRecords(3));
    lookup.on_records(Ok(vec!["c"]));
    assert_eq!(lookup.step(), Step::Finish(Outcome::Matches));
    assert_eq!(lookup.into_found(), vec!["a", "b", "c"]);
}

#[test]
fn lookup_drops_ghost_entries() {
    let mut lookup: Lookup<&str> = Lookup::new(&vec![n(1, 0), n(2, 1)]);
    lookup.on_records(Ok(Vec::new()));
    lookup.on_records(Ok(vec!["kept"]));
    assert_eq!(lookup.step(), Step::Finish(Outcome::Matches));
    assert_eq!(lookup.into_found(), vec!["kept"]);
}

#[test]
fn lookup_skips_a_failed_fetch() {
    let mut lookup: Lookup<&str> = Lookup::new(&vec![n(1, 0), n(2, 1)]);
    lookup.on_records(Err(()));
    assert_eq!(lookup.step(), Step::FetchRecords(2));
    lookup.on_records(Ok(vec!["x"]));
    assert_eq!(lookup.step(), Step::Finish(Outcome::Matches));
    assert_eq!(lookup.into_found(), vec!["x"]);
}

#[test]
fn check_reports_existing_matches() {
    let mut check: CheckAndRecord<&str> = CheckAndRecord::new(&vec![n(4, 1), n(8, 2)]);
    assert_eq!(check.step(), Step::FetchRecords(4));
    check.on_records(Ok(Vec::new()));
    assert_eq!(check.step(), Step::FetchRecords(8));
    check.on_records(Ok(vec!["seen"]));
    assert_eq!(check.step(), Step::Finish(Outcome::Matches));
    assert_eq!(check.into_found(), vec!["seen"]);
}

#[test]
fn check_records_an_unseen_hash() {
    let mut check: CheckAndRecord<&str> = CheckAndRecord::new(&vec![n(4, 1), n(8, 12)]);
    assert_eq!(check.step(), Step::FetchRecords(4));
    check.on_records(Ok(Vec::new()));
    assert_eq!(check.step(), Step::InsertRecord);
    check.on_inserted(Ok(42));
    assert_eq!(check.step(), Step::IndexRecord(42));
    check.on_indexed();
    assert_eq!(check.step(), Step::Finish(Outcome::Recorded(42)));
}

#[test]
fn check_on_empty_index_inserts() {
    let check: CheckAndRecord<&str> = CheckAndRecord::new(&Vec::new());
    assert_eq!(check.step(), Step::InsertRecord);
}

#[test]
fn check_fails_on_fetch_error() {
    let mut check: CheckAndRecord<&str> = CheckAndRecord::new(&vec![n(4, 1)]);
    check.on_records(Err(()));
    assert_eq!(check.step(), Step::Finish(Outcome::StoreFailure));
}

#[test]
fn check_fails_on_insert_error() {
    let mut check: CheckAndRecord<&str> = CheckAndRecord::new(&Vec::new());
    check.on_inserted(Err(()));
    assert_eq!(check.step(), Step::Finish(Outcome::StoreFailure));
}

#[test]
fn save_reports_existing_record() {
    let mut save = SaveHash::new();
    assert_eq!(save.step(), Step::FindExisting);
    save.on_existing(Ok(Some(7)));
    assert_eq!(save.step(), Step::Finish(Outcome::AlreadyRecorded(7)));
}

#[test]
fn save_records_new_hash() {
    let mut save = SaveHash::new();
    save.on_existing(Ok(None));
    assert_eq!(save.step(), Step::InsertRecord);
    save.on_inserted(Ok(11));
    assert_eq!(save.step(), Step::IndexRecord(11));
    save.on_indexed();
    assert_eq!(save.step(), Step::Finish(Outcome::Recorded(11)));
}

#[test]
fn save_fails_on_store_errors() {
    let mut save = SaveHash::new();
    save.on_existing(Err(()));
    assert_eq!(save.step(), Step::Finish(Outcome::StoreFailure));
    let mut save = SaveHash::new();
    save.on_existing(Ok(None));
    save.on_inserted(Err(()));
    assert_eq!(save.step(), Step::Finish(Outcome::StoreFailure));
}

/// A record store and an exhaustive index kept in memory, to run the
/// operations end to end.
struct World {
    rows: Vec<(String, i64, i64)>,
    index: Vec<(Vec<u8>, i64)>,
}

impl World {
    fn search(&self, v: &[u8]) -> Vec<Neighbour> {
        let mut ns: Vec<Neighbour> = self
            .index
            .iter()
            .filter_map(|(w, id)| l1_distance(v, w).map(|d| n(*id, d as u64)))
            .collect();
        ns.sort_by_key(|x| x.distance);
        ns.truncate(10);
        ns
    }

    fn check(&mut self, hash: &str, scope: i64) -> Outcome {
        let v = hex_to_binary_vector(hash);
        let mut check: CheckAndRecord<String> = CheckAndRecord::new(&self.search(&v));
        loop {
            match check.step() {
                Step::FetchRecords(id) => {
                    let rs = self.rows.iter().filter(|r| r.2 == id).map(|r| r.0.clone()).collect();
                    check.on_records(Ok(rs));
                }
                Step::InsertRecord => {
                    let id = self.rows.len() as i64 + 1;
                    self.rows.push((hash.to_string(), scope, id));
                    check.on_inserted(Ok(id));
                }
                Step::IndexRecord(id) => {
                    self.index.push((v.clone(), id));
                    check.on_indexed();
                }
                Step::FindExisting => unreachable!(),
                Step::Finish(o) => return o,
            }
        }
    }

    fn save(&mut self, hash: &str, scope: i64) -> Outcome {
        let v = hex_to_binary_vector(hash);
        let mut save = SaveHash::new();
        loop {
            match save.step() {
                Step::FindExisting => {
                    let found = self.rows.iter().find(|r| r.0 == hash && r.1 == scope).map(|r| r.2);
                    save.on_existing(Ok(found));
                }
                Step::InsertRecord => {
                    let id = self.rows.len() as i64 + 1;
                    self.rows.push((hash.to_string(), scope, id));
                    save.on_inserted(Ok(id));
                }
                Step::IndexRecord(id) => {
                    self.index.push((v.clone(), id));
                    save.on_indexed();
                }
                Step::FetchRecords(_) => unreachable!(),
                Step::Finish(o) => return o,
            }
        }
    }
}

#[test]
fn repeated_checks_record_once() {
    let mut w = World { rows: Vec::new(), index: Vec::new() };
    assert_eq!(w.check("ffff0000", 1), Outcome::Recorded(1));
    assert_eq!(w.check("ffff0000", 1), Outcome::Matches);
    // four differing bits: still the same image
    assert_eq!(w.check("ffff000f", 1), Outcome::Matches);
    // five differing bits: a new image
    assert_eq!(w.check("ffff001f", 1), Outcome::Recorded(2));
    assert_eq!(w.rows.len(), 2);
}

#[test]
fn save_twice_gives_same_identity() {
    let mut w = World { rows: Vec::new(), index: Vec::new() };
    assert_eq!(w.save("abcd", 3), Outcome::Recorded(1));
    assert_eq!(w.save("abcd", 3), Outcome::AlreadyRecorded(1));
    assert_eq!(w.rows.len(), 1);
    assert_eq!(w.index.len(), 1);
    // another scope is another record
    assert_eq!(w.save("abcd", 4), Outcome::Recorded(2));
}
