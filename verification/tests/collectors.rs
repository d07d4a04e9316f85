use std::collections::HashMap;
use std::time::Instant;

use manticore_sentinel::collectors::{
    cpu_total_ticks, process_ticks, rss_bytes, sanitize_text, sort_by_total_desc, CpuCollector,
    CpuSample, CpuTicks, DiskCollector, DiskMetrics, MemoryCollector, NetworkCollector,
    NetworkMetrics, ProcessCollector,
};
use manticore_sentinel::store::{
    log_hour_bins, writer_step, WriterAction, WriterEvent, WriterState,
};
use manticore_sentinel::telemetry::{
    disk_document, host_label, index_due, network_document, throughput_total,
};

fn disk(name: &str, r: u64, w: u64) -> DiskMetrics {
    DiskMetrics { device: name.to_string(), read_bytes_per_sec: r, write_bytes_per_sec: w }
}

#[test]
fn reports_are_sorted_busiest_first_and_stably() {
    let sorted = sort_by_total_desc(vec![
        disk("a", 1, 1),
        disk("b", 10, 0),
        disk("c", 0, 2),
        disk("d", u64::MAX, 5),
        disk("e", 5, 5),
    ]);
    let names: Vec<&str> = sorted.iter().map(|d| d.device.as_str()).collect();
    assert_eq!(names, vec!["d", "b", "e", "a", "c"]);
}

#[test]
fn network_reports_are_sorted() {
    let sorted = sort_by_total_desc(vec![
        NetworkMetrics { interface: "lo".into(), rx_bytes_per_sec: 1, tx_bytes_per_sec: 1 },
        NetworkMetrics { interface: "eth0".into(), rx_bytes_per_sec: 100, tx_bytes_per_sec: 1 },
    ]);
    assert_eq!(sorted[0].interface, "eth0");
    assert_eq!(sorted[1].interface, "lo");
}

#[test]
fn counter_tracker_reports_deltas() {
    let mut c = DiskCollector::new();
    let t0 = Instant::now();
    let (prev, first) = c.counters.advance(
        vec![("sda".into(), 1000, 500), ("sdb".into(), 10, 10)],
        t0,
    );
    assert!(prev.is_none());
    assert_eq!(first, vec![(0, 0), (0, 0)]);
    let t1 = Instant::now();
    let (prev, second) = c.counters.advance(
        vec![("sda".into(), 1500, 400), ("sdc".into(), 7, 7)],
        t1,
    );
    assert_eq!(prev, Some(t0));
    assert_eq!(second, vec![(500, 0), (0, 0)]);
    assert_eq!(DiskCollector::sectors_to_bytes(3), 1536);
    assert_eq!(DiskCollector::sectors_to_bytes(u64::MAX), u64::MAX);
    let mut n = NetworkCollector::new();
    let (_, d) = n.counters.advance(vec![("eth0".into(), 5, 6)], t0);
    assert_eq!(d, vec![(0, 0)]);
}

#[test]
fn memory_metrics_prefer_available() {
    let _ = MemoryCollector::new();
    let m = MemoryCollector::metrics(1000, Some(300), 100);
    assert_eq!((m.total, m.used, m.available), (1000, 700, 300));
    let m = MemoryCollector::metrics(1000, None, 100);
    assert_eq!((m.total, m.used, m.available), (1000, 900, 100));
    let m = MemoryCollector::metrics(100, Some(300), 0);
    assert_eq!(m.used, 0);
}

fn ticks(user: u64, idle: u64) -> CpuTicks {
    CpuTicks {
        user,
        nice: 0,
        system: 0,
        idle,
        iowait: Some(1),
        irq: None,
        softirq: None,
        steal: None,
        guest: None,
        guest_nice: None,
    }
}

#[test]
fn cpu_ticks_and_deltas() {
    assert_eq!(cpu_total_ticks(&ticks(10, 20)), 31);
    let mut big = ticks(u64::MAX, 5);
    big.nice = 3;
    assert_eq!(cpu_total_ticks(&big), u64::MAX);
    let mut c = CpuCollector::new();
    assert!(c.advance(CpuSample { total: ticks(10, 20), cores: vec![ticks(5, 10)] }).is_none());
    let d = c
        .advance(CpuSample { total: ticks(40, 30), cores: vec![ticks(8, 12), ticks(1, 1)] })
        .expect("second reading");
    assert_eq!(d.total, (40, 10));
    assert_eq!(d.cores, vec![(5, 2)]);
}

#[test]
fn process_collector_bookkeeping() {
    let mut p = ProcessCollector::new(20, 5);
    assert_eq!(p.max_entries(), 20);
    assert_eq!(p.cmdline_entries(), 5);
    assert_eq!(p.total_delta(1000), 0);
    assert_eq!(p.process_delta(42, 100), 0);
    p.finish_round(vec![(42, 100), (43, 5)], 1000);
    assert_eq!(p.total_delta(1600), 600);
    assert_eq!(p.process_delta(42, 130), 30);
    assert_eq!(p.process_delta(43, 1), 0);
    assert_eq!(p.process_delta(44, 9), 0);
    assert_eq!(process_ticks(u64::MAX, 1), u64::MAX);
    assert_eq!(rss_bytes(Some(4)), 4096);
    assert_eq!(rss_bytes(None), 0);
    let _unused: HashMap<u32, u64> = HashMap::new();
}

#[test]
fn sanitize_text_keeps_printable_ascii() {
    assert_eq!(sanitize_text("nginx: worker\u{0}\u{7f}\tπ!".to_string()), "nginx: worker\t!");
    assert_eq!(sanitize_text("".to_string()), "");
}

#[test]
fn writer_batches_and_prunes() {
    let mut s = WriterState::new();
    let mut commits = 0;
    let mut prunes = Vec::new();
    for i in 0..256u64 {
        let (next, act) = writer_step(s, WriterEvent::Applied { sync: false, ok: true }, 1_000_000 + i);
        s = next;
        if act.commit {
            commits += 1;
        }
        if let Some(t) = act.prune_before {
            prunes.push(t);
        }
        assert!(!act.stop);
    }
    assert_eq!(commits, 10);
    assert_eq!(prunes, vec![1_000_255 - 604_800]);
    assert_eq!(s.pending, 256 - 240);
    let (s2, act) = writer_step(s, WriterEvent::Applied { sync: true, ok: true }, 5);
    assert_eq!(s2, s);
    assert!(!act.commit);
    let (s3, act) = writer_step(s2, WriterEvent::Idle, 5);
    assert_eq!(s3.pending, 0);
    assert!(act.commit);
    let (_, act) = writer_step(s3, WriterEvent::Closed, 5);
    assert_eq!(act, WriterAction { commit: true, prune_before: None, stop: true });
    let (_, act) = writer_step(WriterState { pending: 0, since_prune: 255 }, WriterEvent::Applied { sync: false, ok: true }, 10);
    assert_eq!(act.prune_before, Some(0));
    let (s4, _) = writer_step(s3, WriterEvent::Applied { sync: false, ok: false }, 5);
    assert_eq!(s4, s3);
}

#[test]
fn log_hours_are_binned() {
    let bins = log_hour_bins(&vec![0, 3599, 3600, 86_400 + 7200, 86_399]);
    assert_eq!(bins.len(), 24);
    assert_eq!(bins[0], 2);
    assert_eq!(bins[1], 1);
    assert_eq!(bins[2], 1);
    assert_eq!(bins[23], 1);
    assert_eq!(bins.iter().sum::<usize>(), 5);
}

#[test]
fn snapshot_documents() {
    assert_eq!(throughput_total(&vec![disk("a", 1, 2), disk("b", 3, 4)]), 10);
    assert!(index_due(true, 30));
    assert!(!index_due(true, 31));
    assert!(!index_due(false, 30));
    let d = disk_document(&disk("nvme0n1", 5, 6));
    assert_eq!(d.title, "nvme0n1");
    assert_eq!(d.body, "disk nvme0n1 read 5 write 6");
    assert_eq!(d.source, "disk:nvme0n1");
    let n = network_document(&NetworkMetrics {
        interface: "eth0".into(),
        rx_bytes_per_sec: 7,
        tx_bytes_per_sec: 8,
    });
    assert_eq!(n.body, "iface eth0 rx 7 tx 8");
    assert_eq!(n.source, "net:eth0");
    assert_eq!(host_label("local"), "host:local");
}
