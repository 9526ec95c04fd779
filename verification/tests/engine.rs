use canvas_lms_sync::download::{DownloadTask, Downloader};

fn task(url: &str) -> DownloadTask {
    DownloadTask { url: url.to_string(), path: vec![url.trim_start_matches("https://h/").to_string()] }
}

fn busy_workers(d: &Downloader) -> usize {
    d.progress().iter().filter(|s| s.is_some()).count()
}

#[test]
fn backpressure_with_one_worker_and_bound_one() {
    let mut d = Downloader::new(1, 1);
    assert_eq!(d.worker_count(), 1);

    // task 1 goes in and worker 0 starts on it (slowly)
    assert!(d.submit(task("https://h/t1")).is_none());
    let t1 = d.take_task(0).expect("the queued task is handed out");
    assert_eq!(t1.url, "https://h/t1");

    // task 2 fills the queue; task 3 finds no room: the caller blocks,
    // holding the task it was handed back
    assert!(d.submit(task("https://h/t2")).is_none());
    let back = d.submit(task("https://h/t3")).expect("queue is full");
    assert_eq!(back.url, "https://h/t3");
    let back = d.submit(back).expect("queue is still full");

    // never more than one task in flight
    assert_eq!(busy_workers(&d), 1);

    // worker 0 finishes t1 and frees a slot; the blocked submit succeeds
    d.set_total(0, 100);
    d.record_chunk(0, 60);
    d.record_chunk(0, 40);
    d.finish_task(0);
    let t2 = d.take_task(0).expect("next task in FIFO order");
    assert_eq!(t2.url, "https://h/t2");
    assert!(d.submit(back).is_none());

    // drain: no more submissions; everything settles once work is done
    d.finish();
    assert!(!d.settled());
    d.finish_task(0);
    let t3 = d.take_task(0).expect("last task");
    assert_eq!(t3.url, "https://h/t3");
    assert!(!d.settled());
    d.finish_task(0);
    assert!(d.settled());
    assert!(d.take_task(0).is_none());
}

#[test]
fn worker_failure_does_not_stop_others() {
    let mut d = Downloader::new(2, 10);
    assert!(d.submit(task("https://h/a")).is_none());
    assert!(d.submit(task("https://h/b")).is_none());
    assert!(d.submit(task("https://h/c")).is_none());

    let a = d.take_task(0).unwrap();
    let b = d.take_task(1).unwrap();
    assert_eq!(a.url, "https://h/a");
    assert_eq!(b.url, "https://h/b");

    // worker 0's transfer fails with a filesystem error: its slot clears,
    // the queue and worker 1 are untouched
    d.finish_task(0);
    assert_eq!(d.queued(), 1);
    assert_eq!(busy_workers(&d), 1);

    // worker 1 carries on and completes
    d.set_total(1, 8);
    d.record_chunk(1, 8);
    d.finish_task(1);

    // worker 0 picks up the next task and completes it
    let c = d.take_task(0).unwrap();
    assert_eq!(c.url, "https://h/c");
    d.finish_task(0);
    let none = d.take_task(1);
    assert!(none.is_none());
    assert!(d.settled());
}

#[test]
fn progress_slots_track_chunks_and_clear() {
    let mut d = Downloader::new(2, 4);
    assert!(d.submit(task("https://h/a")).is_none());
    d.take_task(0).unwrap();
    d.set_total(0, 10);
    d.record_chunk(0, 4);
    {
        let slots = d.progress();
        assert_eq!(slots.len(), 2);
        let p = slots[0].as_ref().expect("worker 0 is busy");
        assert_eq!(p.total, 10);
        assert_eq!(p.downloaded, 4);
        assert_eq!(p.task.url, "https://h/a");
        assert!(slots[1].is_none());
    }
    d.record_chunk(0, 6);
    assert_eq!(d.progress()[0].as_ref().unwrap().downloaded, 10);
    // the slot clears at task end: between tasks a worker reads as idle
    d.finish_task(0);
    assert!(d.progress()[0].is_none());
}

#[test]
fn empty_queue_leaves_worker_idle() {
    let mut d = Downloader::new(1, 3);
    assert!(d.take_task(0).is_none());
    assert!(d.settled());
    assert_eq!(d.queued(), 0);
}
