use topic_relay::batch::BatchAggregator;
use topic_relay::config::{AppConfig, Cli, KafkaDst, KafkaSrc, StartOffset, parse_offset_reset};
use topic_relay::confirm::{PartitionConfirm, ProduceConfirm, check_confirms};
use topic_relay::reader::{PollCycle, records_of_set};
use topic_relay::record::{Message, MessageSet, Record};

fn numbered_records(from: u8, n: usize) -> Vec<Record> {
    let mut rs = Vec::new();
    for i in 0..n {
        let k = from.wrapping_add(i as u8);
        rs.push(Record::new(String::from("t"), vec![k], vec![k, k]));
    }
    rs
}

#[test]
fn batch_accept_below_threshold_holds_records() {
    let mut agg = BatchAggregator::new(3);
    assert!(agg.accept(Record::new(String::from("t"), vec![1], vec![])).is_none());
    assert!(agg.accept(Record::new(String::from("t"), vec![2], vec![])).is_none());
}

#[test]
fn batch_accept_flushes_exactly_at_threshold() {
    let mut agg = BatchAggregator::new(3);
    assert!(agg.accept(Record::new(String::from("t"), vec![1], vec![])).is_none());
    assert!(agg.accept(Record::new(String::from("t"), vec![2], vec![])).is_none());
    let flush = agg.accept(Record::new(String::from("t"), vec![3], vec![]));
    let batch = flush.expect("third record must trigger a flush");
    assert_eq!(batch.len(), 3);
    assert_eq!(batch[0].key, vec![1]);
    assert_eq!(batch[1].key, vec![2]);
    assert_eq!(batch[2].key, vec![3]);
    // The batch is empty again: the next two records are held.
    assert!(agg.accept(Record::new(String::from("t"), vec![4], vec![])).is_none());
    assert!(agg.accept(Record::new(String::from("t"), vec![5], vec![])).is_none());
}

#[test]
fn batch_threshold_one_flushes_every_record() {
    let mut agg = BatchAggregator::new(1);
    let flush = agg.accept(Record::new(String::from("t"), vec![9], vec![7]));
    let batch = flush.expect("every record is a full batch at threshold one");
    assert_eq!(batch.len(), 1);
    assert_eq!(batch[0].key, vec![9]);
    assert_eq!(batch[0].value, vec![7]);
}

#[test]
fn feed_all_keeps_order_in_multiples_of_threshold() {
    let mut agg = BatchAggregator::new(4);
    let flushes = agg.feed_all(numbered_records(0, 10));
    assert_eq!(flushes.len(), 2);
    for (b, batch) in flushes.iter().enumerate() {
        assert_eq!(batch.len(), 4);
        for (i, rec) in batch.iter().enumerate() {
            let k = (b * 4 + i) as u8;
            assert_eq!(rec.key, vec![k]);
            assert_eq!(rec.value, vec![k, k]);
        }
    }
}

#[test]
fn feed_all_empty_input_flushes_nothing() {
    let mut agg = BatchAggregator::new(5);
    let flushes = agg.feed_all(Vec::new());
    assert!(flushes.is_empty());
}

#[test]
fn two_hundred_fifty_records_give_two_full_flushes() {
    // 250 records at a threshold of 100: two flushes of 100 in order,
    // the remaining 50 held until further records arrive.
    let mut records = Vec::new();
    for i in 0..250u32 {
        records.push(Record::new(
            String::from("t"),
            i.to_be_bytes().to_vec(),
            Vec::new(),
        ));
    }
    let mut agg = BatchAggregator::new(100);
    let flushes = agg.feed_all(records);
    assert_eq!(flushes.len(), 2);
    assert_eq!(flushes[0].len(), 100);
    assert_eq!(flushes[1].len(), 100);
    assert_eq!(flushes[0][0].key, 0u32.to_be_bytes().to_vec());
    assert_eq!(flushes[0][99].key, 99u32.to_be_bytes().to_vec());
    assert_eq!(flushes[1][0].key, 100u32.to_be_bytes().to_vec());
    assert_eq!(flushes[1][99].key, 199u32.to_be_bytes().to_vec());
    // r201..r250 stay unflushed: 49 more records do not reach the
    // threshold, the 50th completes the next full batch.
    for i in 250..299u32 {
        let f = agg.accept(Record::new(
            String::from("t"),
            i.to_be_bytes().to_vec(),
            Vec::new(),
        ));
        assert!(f.is_none());
    }
    let f = agg.accept(Record::new(String::from("t"), 299u32.to_be_bytes().to_vec(), Vec::new()));
    let batch = f.expect("the hundredth pending record triggers the third flush");
    assert_eq!(batch.len(), 100);
    assert_eq!(batch[0].key, 200u32.to_be_bytes().to_vec());
    assert_eq!(batch[99].key, 299u32.to_be_bytes().to_vec());
}

fn ok_confirm(partition: i32, offset: i64) -> PartitionConfirm {
    PartitionConfirm { partition, offset: Ok(offset) }
}

fn err_confirm(partition: i32, code: i16) -> PartitionConfirm {
    PartitionConfirm { partition, offset: Err(code) }
}

#[test]
fn all_successful_confirms_pass() {
    let confirms = vec![ProduceConfirm {
        topic: String::from("t"),
        partition_confirms: vec![ok_confirm(0, 10), ok_confirm(1, 20)],
    }];
    assert_eq!(check_confirms(&confirms), Ok(()));
}

#[test]
fn empty_confirms_pass() {
    assert_eq!(check_confirms(&Vec::new()), Ok(()));
    let confirms = vec![ProduceConfirm {
        topic: String::from("t"),
        partition_confirms: Vec::new(),
    }];
    assert_eq!(check_confirms(&confirms), Ok(()));
}

#[test]
fn nine_successes_one_failure_fail_the_whole_batch() {
    // One failing confirmation among ten: the whole flush reports the
    // failure; the successful nine are not distinguished or retried.
    let mut pcs = Vec::new();
    for p in 0..9 {
        pcs.push(ok_confirm(p, 100 + p as i64));
    }
    pcs.push(err_confirm(9, 6));
    let confirms = vec![ProduceConfirm {
        topic: String::from("t"),
        partition_confirms: pcs,
    }];
    assert_eq!(check_confirms(&confirms), Err(6));
}

#[test]
fn first_error_code_in_order_is_reported() {
    let confirms = vec![
        ProduceConfirm {
            topic: String::from("t"),
            partition_confirms: vec![ok_confirm(0, 1)],
        },
        ProduceConfirm {
            topic: String::from("t"),
            partition_confirms: vec![err_confirm(1, 5), err_confirm(2, 3)],
        },
        ProduceConfirm {
            topic: String::from("t"),
            partition_confirms: vec![err_confirm(3, 2)],
        },
    ];
    assert_eq!(check_confirms(&confirms), Err(5));
}

#[test]
fn earliest_is_recognized() {
    assert_eq!(parse_offset_reset(&String::from("earliest")), StartOffset::Earliest);
}

#[test]
fn latest_is_recognized() {
    assert_eq!(parse_offset_reset(&String::from("latest")), StartOffset::Latest);
}

#[test]
fn unrecognized_offset_reset_falls_back_to_latest() {
    // An unrecognized setting behaves exactly like "latest".
    let fallback = parse_offset_reset(&String::from("sometime-yesterday"));
    assert_eq!(fallback, parse_offset_reset(&String::from("latest")));
    assert_eq!(fallback, StartOffset::Latest);
    assert_eq!(parse_offset_reset(&String::from("")), StartOffset::Latest);
    assert_eq!(parse_offset_reset(&String::from("Earliest")), StartOffset::Latest);
}

fn sample_config(topic: &str) -> AppConfig {
    AppConfig {
        topic: String::from(topic),
        src: KafkaSrc {
            brokers: vec![String::from("src:9092")],
            group_id: String::from("g1"),
            auto_offset_reset: String::from("earliest"),
            enable_auto_commit: false,
        },
        dst: KafkaDst { brokers: vec![String::from("dst:9092")] },
    }
}

#[test]
fn cli_topic_override_wins_over_file_topic() {
    let cfg = sample_config("orders");
    let cli = Cli {
        cfg_file_path: String::from("config.toml"),
        topic: Some(String::from("orders-v2")),
    };
    let resolved = cfg.apply_cli(cli);
    assert_eq!(resolved.topic, "orders-v2");
    assert_eq!(resolved.src.group_id, "g1");
    assert_eq!(resolved.dst.brokers, vec![String::from("dst:9092")]);
    // All records of a poll cycle carry the overridden topic.
    let sets = vec![MessageSet {
        messages: vec![
            Message { key: vec![1], value: vec![2] },
            Message { key: vec![3], value: vec![4] },
        ],
    }];
    let mut cycle = PollCycle::new(&resolved.topic, sets);
    let mut seen = 0;
    while let Some(rec) = cycle.next_unforwarded() {
        assert_eq!(rec.topic, "orders-v2");
        seen += 1;
        cycle.mark_forwarded();
    }
    assert_eq!(seen, 2);
}

#[test]
fn without_cli_topic_the_file_topic_stays() {
    let cfg = sample_config("orders");
    let cli = Cli { cfg_file_path: String::from("config.toml"), topic: None };
    let resolved = cfg.apply_cli(cli);
    assert_eq!(resolved.topic, "orders");
    assert_eq!(resolved.start_offset(), StartOffset::Earliest);
}

#[test]
fn records_of_set_keeps_keys_values_and_order() {
    let topic = String::from("mirror");
    let ms = MessageSet {
        messages: vec![
            Message { key: vec![1, 2], value: vec![3] },
            Message { key: Vec::new(), value: Vec::new() },
            Message { key: vec![9], value: vec![8, 7] },
        ],
    };
    let rs = records_of_set(&topic, ms);
    assert_eq!(rs.len(), 3);
    assert_eq!(rs[0].topic, "mirror");
    assert_eq!(rs[0].key, vec![1, 2]);
    assert_eq!(rs[0].value, vec![3]);
    assert_eq!(rs[1].key, Vec::<u8>::new());
    assert_eq!(rs[1].value, Vec::<u8>::new());
    assert_eq!(rs[2].key, vec![9]);
    assert_eq!(rs[2].value, vec![8, 7]);
}

#[test]
fn poll_cycle_flattens_sets_in_order() {
    let topic = String::from("t");
    let sets = vec![
        MessageSet {
            messages: vec![
                Message { key: vec![1], value: vec![] },
                Message { key: vec![2], value: vec![] },
            ],
        },
        MessageSet { messages: Vec::new() },
        MessageSet { messages: vec![Message { key: vec![3], value: vec![] }] },
    ];
    let mut cycle = PollCycle::new(&topic, sets);
    let mut keys = Vec::new();
    while let Some(rec) = cycle.next_unforwarded() {
        keys.push(rec.key.clone());
        cycle.mark_forwarded();
    }
    assert_eq!(keys, vec![vec![1], vec![2], vec![3]]);
}

#[test]
fn commit_is_due_only_after_every_record_is_forwarded() {
    let topic = String::from("t");
    let sets = vec![MessageSet {
        messages: vec![
            Message { key: vec![1], value: vec![] },
            Message { key: vec![2], value: vec![] },
            Message { key: vec![3], value: vec![] },
        ],
    }];
    let mut cycle = PollCycle::new(&topic, sets);
    // Forwarding stops partway: no commit for this cycle.
    assert!(!cycle.commit_due());
    assert!(cycle.next_unforwarded().is_some());
    cycle.mark_forwarded();
    assert!(!cycle.commit_due());
    cycle.mark_forwarded();
    assert!(!cycle.commit_due());
    cycle.mark_forwarded();
    assert!(cycle.next_unforwarded().is_none());
    assert!(cycle.commit_due());
}

#[test]
fn empty_poll_cycle_commits_at_once() {
    let topic = String::from("t");
    let cycle = PollCycle::new(&topic, Vec::new());
    assert!(cycle.commit_due());
}
