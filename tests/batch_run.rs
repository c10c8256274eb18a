use poly_cls::cls::{build_prompt, Action, BatchRun, ItemOutcome, ServiceError, DEFAULT_CHUNK_SIZE};
use poly_cls::database::ToEval;
use poly_cls::schemas::TypeT;

fn targets(n: usize) -> Vec<ToEval> {
    (1..=n).map(|i| ToEval::new(i.to_string(), format!("item {}", i))).collect()
}

fn retrieve_all(run: &mut BatchRun) {
    loop {
        match run.next_action() {
            Action::Retrieve { query, .. } => {
                run.on_retrieved(Ok(vec![format!("near {}", query)])).unwrap();
            }
            _ => break,
        }
    }
}

fn err(msg: &str) -> ServiceError {
    ServiceError { message: msg.to_string() }
}

#[test]
fn prompt_has_description_and_samples() {
    let p = build_prompt(
        &"extruded foam board insulation".to_string(),
        &vec!["rigid extruded foam panel -> Xps".to_string(), "mineral slab -> StoneWool".to_string()],
    );
    assert_eq!(
        p,
        "DESCRIPTION: extruded foam board insulation\nSAMPLES:\nrigid extruded foam panel -> Xps\nmineral slab -> StoneWool"
    );
    assert_eq!(build_prompt(&"d".to_string(), &vec![]), "DESCRIPTION: d\nSAMPLES:\n");
}

#[test]
fn empty_selection_dispatches_nothing() {
    let run = BatchRun::new(Vec::new(), 3, DEFAULT_CHUNK_SIZE);
    assert!(matches!(run.next_action(), Action::Finish));
    assert!(run.into_targets().is_empty());
}

#[test]
fn hundred_twenty_targets_go_out_in_three_rounds() {
    let mut run = BatchRun::new(targets(120), 2, 50);
    retrieve_all(&mut run);
    let mut sizes = Vec::new();
    loop {
        match run.next_action() {
            Action::Dispatch { start, prompts } => {
                assert_eq!(start, sizes.iter().sum::<usize>());
                sizes.push(prompts.len());
                let answers = prompts.iter().map(|_| Ok("Eps".to_string())).collect();
                let outcomes = run.on_classified(answers);
                assert_eq!(outcomes.len(), prompts.len());
            }
            Action::Finish => break,
            Action::Retrieve { .. } => panic!("retrieval after dispatch"),
        }
    }
    assert_eq!(sizes, vec![50, 50, 20]);
    assert!(run.into_targets().iter().all(|t| t.eval == TypeT::Eps));
}

#[test]
fn one_failed_call_leaves_only_its_item_unresolved() {
    let mut run = BatchRun::new(targets(10), 1, DEFAULT_CHUNK_SIZE);
    retrieve_all(&mut run);
    let prompts = match run.next_action() {
        Action::Dispatch { start: 0, prompts } => prompts,
        _ => panic!("expected one round"),
    };
    assert_eq!(prompts.len(), 10);
    let answers: Vec<Result<String, ServiceError>> = (1..=10)
        .map(|i| if i == 7 { Err(err("timeout")) } else { Ok("Pir".to_string()) })
        .collect();
    let outcomes = run.on_classified(answers);
    assert!(matches!(run.next_action(), Action::Finish));
    for (i, o) in outcomes.iter().enumerate() {
        match o {
            ItemOutcome::Failed { id, error } => {
                assert_eq!(i, 6);
                assert_eq!(id, "7");
                assert_eq!(error.message, "timeout");
            }
            ItemOutcome::Classified { id, eval } => {
                assert_eq!(id, &(i + 1).to_string());
                assert_eq!(*eval, TypeT::Pir);
            }
            ItemOutcome::Unresolved { .. } => panic!("no answer was unreadable"),
        }
    }
    let done = run.into_targets();
    for (i, t) in done.iter().enumerate() {
        let want = if i == 6 { TypeT::NoEval } else { TypeT::Pir };
        assert_eq!(t.eval, want);
    }
}

#[test]
fn end_to_end_single_target() {
    let mut run = BatchRun::new(
        vec![ToEval::new("42".to_string(), "extruded foam board insulation".to_string())],
        1,
        DEFAULT_CHUNK_SIZE,
    );
    match run.next_action() {
        Action::Retrieve { index, query, top_n } => {
            assert_eq!(index, 0);
            assert_eq!(query, "extruded foam board insulation");
            assert_eq!(top_n, 1);
        }
        _ => panic!("expected retrieval"),
    }
    run.on_retrieved(Ok(vec!["rigid extruded foam panel -> Xps".to_string()])).unwrap();
    let prompts = match run.next_action() {
        Action::Dispatch { prompts, .. } => prompts,
        _ => panic!("expected dispatch"),
    };
    assert_eq!(
        prompts,
        vec!["DESCRIPTION: extruded foam board insulation\nSAMPLES:\nrigid extruded foam panel -> Xps".to_string()]
    );
    let outcomes = run.on_classified(vec![Ok("<think>reasoning</think>Xps".to_string())]);
    assert_eq!(outcomes.len(), 1);
    match &outcomes[0] {
        ItemOutcome::Classified { id, eval } => {
            assert_eq!(id, "42");
            assert_eq!(*eval, TypeT::Xps);
        }
        _ => panic!("expected a classification"),
    }
    let done = run.into_targets();
    assert_eq!(done[0].eval, TypeT::Xps);
}

#[test]
fn unreadable_answer_is_still_persisted_as_unresolved() {
    let mut run = BatchRun::new(vec![ToEval::new("5".to_string(), "thing".to_string())], 0, 4);
    run.on_retrieved(Ok(vec![])).unwrap();
    let outcomes = run.on_classified(vec![Ok("I am not sure".to_string())]);
    match &outcomes[0] {
        ItemOutcome::Unresolved { id } => assert_eq!(id, "5"),
        _ => panic!("expected an unresolved outcome"),
    }
    assert_eq!(run.into_targets()[0].eval, TypeT::NoEval);
}

#[test]
fn failed_retrieval_is_handed_back() {
    let mut run = BatchRun::new(targets(2), 3, 50);
    let r = run.on_retrieved(Err(err("embedding service down")));
    assert_eq!(r.unwrap_err().message, "embedding service down");
    match run.next_action() {
        Action::Retrieve { index, .. } => assert_eq!(index, 0),
        _ => panic!("state must be unchanged"),
    }
}

#[test]
fn rounds_follow_chunk_size() {
    let mut run = BatchRun::new(targets(7), 0, 3);
    retrieve_all(&mut run);
    let mut sizes = Vec::new();
    while let Action::Dispatch { prompts, .. } = run.next_action() {
        sizes.push(prompts.len());
        run.on_classified(prompts.iter().map(|_| Err(err("down"))).collect());
    }
    assert_eq!(sizes, vec![3, 3, 1]);
    assert!(run.into_targets().iter().all(|t| t.eval == TypeT::NoEval));
}
