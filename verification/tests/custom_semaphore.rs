use ferris_commerce::customsync::custom_semaphore::Semaphore;

#[test]
fn test_sem_acquire_release() {
    let s = Semaphore::new(1);
    s.acquire();
    s.release();
    s.acquire();
}

#[test]
fn sem_with_two_units_acquires_twice() {
    let s = Semaphore::new(2);
    s.acquire();
    s.acquire();
    s.release();
    s.release();
    s.acquire();
}
