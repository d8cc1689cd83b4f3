use slog_observer::{
    serialize_state, Entry, LogRecord, LogTarget, LogValue, Overflow, SlogLogger, StateData,
    StateSnapshot, KV,
};

fn snapshot() -> StateSnapshot {
    StateSnapshot {
        best_cost: 0.5f64.to_string(),
        best_param: None,
        cost: 1.23f64.to_string(),
        func_counts: vec![("cost".to_string(), 3), ("grad".to_string(), 1)],
        is_best: true,
        iter: 5,
        last_best_iter: 4,
        max_iters: 100,
        param: None,
        target_cost: 0.0f64.to_string(),
        termination_reason: None,
        termination_status: "Running".to_string(),
        time: None,
    }
}

fn text(key: &str, value: &str) -> Entry {
    Entry { key: key.to_string(), value: LogValue::Str(value.to_string()) }
}

fn count(key: &str, value: u64) -> Entry {
    Entry { key: key.to_string(), value: LogValue::U64(value) }
}

#[test]
fn iter_then_cost_record() {
    let mut logger = SlogLogger::term();
    logger.data(vec![StateData::Iter, StateData::Cost]);
    let kv = KV::new().push("alpha", "0.1".to_string());
    let record = logger.observe_iter(&snapshot(), &kv);
    assert_eq!(
        record,
        LogRecord {
            msg: String::new(),
            entries: vec![count("Iter", 5), text("Cost", "1.23"), text("alpha", "0.1")],
        }
    );
}

#[test]
fn function_counts_expand_by_name() {
    let entries = serialize_state(&vec![StateData::FunctionCounts], &snapshot());
    assert_eq!(entries, vec![count("cost", 3), count("grad", 1)]);
    assert!(entries.iter().all(|e| e.key != "FunctionCounts"));
}

#[test]
fn absent_optional_fields_render_none() {
    let sel = vec![
        StateData::BestParam,
        StateData::Param,
        StateData::Time,
        StateData::TerminationReason,
    ];
    let entries = serialize_state(&sel, &snapshot());
    assert_eq!(
        entries,
        vec![
            text("BestParam", "None"),
            text("Param", "None"),
            text("Time", "None"),
            text("TerminationReason", "None"),
        ]
    );
}

#[test]
fn present_optional_fields_render_their_text() {
    let mut s = snapshot();
    s.best_param = Some("[1.0, 2.0]".to_string());
    s.param = Some("[1.5, 2.5]".to_string());
    s.time = Some("1.5s".to_string());
    s.termination_reason = Some("Maximum number of iterations reached".to_string());
    let sel = vec![
        StateData::BestParam,
        StateData::Param,
        StateData::Time,
        StateData::TerminationReason,
    ];
    let entries = serialize_state(&sel, &s);
    assert_eq!(
        entries,
        vec![
            text("BestParam", "[1.0, 2.0]"),
            text("Param", "[1.5, 2.5]"),
            text("Time", "1.5s"),
            text("TerminationReason", "Maximum number of iterations reached"),
        ]
    );
}

#[test]
fn duplicate_tags_are_kept() {
    let mut s = snapshot();
    s.iter = 7;
    let entries = serialize_state(&vec![StateData::Iter, StateData::Iter], &s);
    assert_eq!(entries, vec![count("Iter", 7), count("Iter", 7)]);
}

#[test]
fn every_tag_renders_by_its_rule() {
    let sel = vec![
        StateData::BestCost,
        StateData::Cost,
        StateData::IsBest,
        StateData::Iter,
        StateData::LastBestIter,
        StateData::MaxIters,
        StateData::TargetCost,
        StateData::TerminationStatus,
    ];
    let entries = serialize_state(&sel, &snapshot());
    assert_eq!(
        entries,
        vec![
            text("BestCost", "0.5"),
            text("Cost", "1.23"),
            Entry { key: "IsBest".to_string(), value: LogValue::Bool(true) },
            count("Iter", 5),
            count("LastBestIter", 4),
            count("MaxIters", 100),
            text("TargetCost", "0"),
            text("TerminationStatus", "Running"),
        ]
    );
}

#[test]
fn default_selection() {
    let logger = SlogLogger::term();
    assert_eq!(
        logger.log_data(),
        &vec![StateData::FunctionCounts, StateData::BestCost, StateData::Cost, StateData::Iter]
    );
    let record = logger.observe_iter(&snapshot(), &KV::new());
    assert_eq!(
        record.entries,
        vec![
            count("cost", 3),
            count("grad", 1),
            text("BestCost", "0.5"),
            text("Cost", "1.23"),
            count("Iter", 5),
        ]
    );
}

#[test]
fn empty_selection_gives_only_auxiliary_entries() {
    let mut logger = SlogLogger::term_noblock();
    logger.data(Vec::new());
    let kv = KV::new().push("a", "1".to_string()).push("b", "two".to_string());
    let record = logger.observe_iter(&snapshot(), &kv);
    assert_eq!(record.entries, vec![text("a", "1"), text("b", "two")]);
}

#[test]
fn init_record_holds_message_and_auxiliary_entries() {
    let logger = SlogLogger::term();
    let kv = KV::new().push("solver", "Newton".to_string());
    let record = logger.observe_init("Running Newton", &kv);
    assert_eq!(
        record,
        LogRecord { msg: "Running Newton".to_string(), entries: vec![text("solver", "Newton")] }
    );
}

#[test]
fn kv_keeps_order() {
    let kv = KV::new().push("z", "1".to_string()).push("a", "2".to_string());
    assert_eq!(kv.len(), 2);
    assert_eq!(kv.entries(), vec![text("z", "1"), text("a", "2")]);
    assert!(KV::new().entries().is_empty());
}

#[test]
fn constructors_set_strategy_and_target() {
    let t = SlogLogger::term();
    assert_eq!(t.overflow(), Overflow::Block);
    assert_eq!(t.target(), &LogTarget::Terminal);
    let tn = SlogLogger::term_noblock();
    assert_eq!(tn.overflow(), Overflow::Drop);
    assert_eq!(tn.target(), &LogTarget::Terminal);
    let f = SlogLogger::file("run.log", true);
    assert_eq!(f.overflow(), Overflow::Block);
    assert_eq!(f.target(), &LogTarget::File { path: "run.log".to_string(), truncate: true });
    let fnb = SlogLogger::file_noblock("run.log", false);
    assert_eq!(fnb.overflow(), Overflow::Drop);
    assert_eq!(fnb.target(), &LogTarget::File { path: "run.log".to_string(), truncate: false });
    assert_eq!(fnb.log_data().len(), 4);
}

#[test]
fn data_replaces_selection_wholesale() {
    let mut logger = SlogLogger::file("out.log", false);
    logger.data(vec![StateData::Time]).data(vec![StateData::MaxIters, StateData::IsBest]);
    assert_eq!(logger.log_data(), &vec![StateData::MaxIters, StateData::IsBest]);
    assert_eq!(logger.overflow(), Overflow::Block);
}

#[test]
fn tag_names() {
    let all = [
        (StateData::BestCost, "BestCost"),
        (StateData::BestParam, "BestParam"),
        (StateData::Cost, "Cost"),
        (StateData::FunctionCounts, "FunctionCounts"),
        (StateData::IsBest, "IsBest"),
        (StateData::Iter, "Iter"),
        (StateData::LastBestIter, "LastBestIter"),
        (StateData::MaxIters, "MaxIters"),
        (StateData::Param, "Param"),
        (StateData::TargetCost, "TargetCost"),
        (StateData::TerminationReason, "TerminationReason"),
        (StateData::TerminationStatus, "TerminationStatus"),
        (StateData::Time, "Time"),
    ];
    for (d, n) in all {
        assert_eq!(d.name(), n);
    }
}
