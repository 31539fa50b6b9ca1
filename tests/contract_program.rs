use solved_flag::contract::{is_solved, solve, IsSolved, Solve, Storage};

#[test]
fn contract_solve_sets_the_flag() {
    let mut accounts = Solve { storage: Storage { solved: false } };
    assert_eq!(solve(&mut accounts), Ok(()));
    assert_eq!(accounts.storage, Storage { solved: true });
}

#[test]
fn contract_solve_on_a_set_flag_keeps_it_set() {
    let mut accounts = Solve { storage: Storage { solved: true } };
    assert_eq!(solve(&mut accounts), Ok(()));
    assert!(accounts.storage.solved);
}

#[test]
fn contract_is_solved_reports_each_value() {
    assert_eq!(is_solved(&IsSolved { storage: Storage { solved: false } }), Ok(false));
    assert_eq!(is_solved(&IsSolved { storage: Storage { solved: true } }), Ok(true));
}

#[test]
fn contract_flag_reads_true_after_solve() {
    let mut solving = Solve { storage: Storage { solved: false } };
    assert_eq!(is_solved(&IsSolved { storage: solving.storage }), Ok(false));
    solve(&mut solving).unwrap();
    assert_eq!(is_solved(&IsSolved { storage: solving.storage }), Ok(true));
}
