use snake_engine::cmd::command::{next_drawable_id, CommandQueue};
use snake_engine::res::cache::TexturePool;
use snake_engine::threading::scheduler::{create_scheduler, Scheduler, SchedulerContext};
use std::sync::atomic::{AtomicI8, Ordering};
use std::sync::{Arc, Mutex};

#[test]
fn command_queue_keeps_order() {
    let mut queue: CommandQueue<&str> = CommandQueue::default();
    assert!(queue.is_empty());
    queue.append("draw circle");
    queue.append("draw square");
    queue.append("clear");
    assert_eq!(queue.len(), 3);
    assert!(!queue.is_empty());
    assert_eq!(queue.drain_all(), vec!["draw circle", "draw square", "clear"]);
    assert_eq!(queue.len(), 0);
    assert!(queue.is_empty());
}

#[test]
fn command_queue_append_other_goes_behind() {
    let mut first: CommandQueue<u32> = CommandQueue::new();
    first.append(1);
    first.append(2);
    let mut second: CommandQueue<u32> = CommandQueue::new();
    second.append(3);
    second.append(4);
    first.append_other(second);
    assert_eq!(first.len(), 4);
    assert_eq!(first.drain_all(), vec![1, 2, 3, 4]);
}

#[test]
fn command_queue_drain_of_empty_queue() {
    let mut queue: CommandQueue<u8> = CommandQueue::new();
    assert_eq!(queue.drain_all(), Vec::<u8>::new());
}

#[test]
fn drawable_ids_count_from_one() {
    assert_eq!(next_drawable_id(0), 1);
    assert_eq!(next_drawable_id(5), 6);
    assert_eq!(next_drawable_id(u32::MAX as usize - 1), u32::MAX);
}

#[test]
fn scheduler_hands_out_jobs_in_order_once() {
    let (mut scheduler, mut context) = create_scheduler::<u32>();
    assert_eq!(context.pending(), 0);
    context.add(7);
    context.add(8);
    context.add(9);
    assert_eq!(context.pending(), 3);
    assert_eq!(scheduler.update(&mut context), Some(7));
    assert_eq!(context.pending(), 2);
    context.add(10);
    assert_eq!(scheduler.update(&mut context), Some(8));
    assert_eq!(scheduler.update(&mut context), Some(9));
    assert_eq!(scheduler.update(&mut context), Some(10));
    assert_eq!(context.pending(), 0);
    assert_eq!(scheduler.update(&mut context), None);
    assert_eq!(scheduler.update(&mut context), None);
}

/// Runs an update the way the render thread does: a step at a time, with the
/// context unlocked while a job runs, until no job is pending.
fn run_update(scheduler: &mut Scheduler, context: &Arc<Mutex<SchedulerContext<Job>>>) {
    loop {
        let job = scheduler.update(&mut context.lock().unwrap());
        match job {
            Some(job) => job(),
            None => break,
        }
    }
}

#[test]
fn scheduler_runs_jobs_added_by_running_jobs_in_the_same_update() {
    let (mut scheduler, context) = create_scheduler::<Job>();
    let context: Arc<Mutex<SchedulerContext<Job>>> = Arc::new(Mutex::new(context));
    let log: Arc<Mutex<Vec<u32>>> = Arc::new(Mutex::new(Vec::new()));

    let inner_context = context.clone();
    let log_first = log.clone();
    let log_second = log.clone();
    context.lock().unwrap().add(Box::new(move || {
        log_first.lock().unwrap().push(1);
        inner_context.lock().unwrap().add(Box::new(move || {
            log_second.lock().unwrap().push(2);
        }));
    }));

    run_update(&mut scheduler, &context);

    assert_eq!(*log.lock().unwrap(), vec![1, 2]);
    assert_eq!(context.lock().unwrap().pending(), 0);
}

type Job = Box<dyn FnOnce() + Send>;

#[test]
fn test_schedule() {
    let mut tries: u32 = 0;

    let (mut scheduler, context) = create_scheduler::<Job>();
    let context: Arc<Mutex<SchedulerContext<Job>>> = Arc::new(Mutex::new(context));

    let context_clone = context.clone();

    let number: Arc<AtomicI8> = Arc::new(AtomicI8::new(0));

    let number_clone = number.clone();

    context_clone.lock().unwrap().add(Box::new(move || {
        let _ = number_clone.fetch_add(5, Ordering::SeqCst);
    }));

    while tries <= 5 {
        run_update(&mut scheduler, &context);

        if number.load(Ordering::SeqCst) == 5 {
            break;
        }

        tries += 1;
    }

    assert_eq!(number.load(Ordering::SeqCst), 5);
}

#[test]
fn texture_pool_finds_a_file_in_any_case() {
    let mut pool: TexturePool<u32> = TexturePool::new();
    assert!(pool.find("Snake.PNG").is_none());
    let stored = pool.store("Snake.PNG", Arc::new(7));
    assert_eq!(*stored, 7);
    assert_eq!(pool.find("snake.png").map(|t| *t), Some(7));
    assert_eq!(pool.find("SNAKE.png").map(|t| *t), Some(7));
    assert!(pool.find("apple.png").is_none());
    pool.store("SNAKE.png", Arc::new(8));
    assert_eq!(pool.find("Snake.PNG").map(|t| *t), Some(8));
}
