use monitor_fw::cb::{CircularBuffer, RING_BUFFER_SZ};

fn counter_block(first: usize, count: usize) -> Vec<u8> {
    let mut val = vec![0x00u8; count * 4];
    for i in first..first + count {
        let j = i - first;
        val[j * 4] = (i >> 0) as u8;
        val[j * 4 + 1] = (i >> 8) as u8;
        val[j * 4 + 2] = (i >> 16) as u8;
        val[j * 4 + 3] = (i >> 24) as u8;
    }
    val
}

#[test]
fn test_buf_empty() {
    let buf = CircularBuffer::new();
    assert_eq!(buf.len(), 0)
}

#[test]
fn test_buf_full() {
    let mut buf = CircularBuffer::new();
    let val = [0xAAu8; RING_BUFFER_SZ];
    let mut val2 = [0xBBu8; RING_BUFFER_SZ];

    assert!(buf.enqueue_slice(&val) == true);
    assert_eq!(buf.tail(), 0);
    assert_eq!(buf.len(), RING_BUFFER_SZ);

    assert!(buf.dequeue_slice(&mut val2) == RING_BUFFER_SZ);
    assert_eq!(buf.len(), 0);

    assert_eq!(&val[..], &val2[..]);
}

#[test]
fn test_buf_overwrite() {
    let mut buf = CircularBuffer::new();
    let val = [0xAAu8; RING_BUFFER_SZ / 2];
    let val2 = [0xBBu8; RING_BUFFER_SZ];
    let mut val3 = [0x0u8; RING_BUFFER_SZ];
    let val4 = [0xBBu8; RING_BUFFER_SZ];

    assert!(buf.enqueue_slice(&val) == true);
    assert_eq!(buf.len(), RING_BUFFER_SZ / 2);

    assert!(buf.enqueue_slice(&val2) == true);
    assert_eq!(buf.len(), RING_BUFFER_SZ);

    assert!(buf.dequeue_slice(&mut val3) == RING_BUFFER_SZ);
    assert_eq!(buf.len(), 0);

    assert_eq!(&val3[..], &val4[..]);
}

#[test]
fn test_buf_overwrite2() {
    let mut buf = CircularBuffer::new();
    let val = {
        let mut val = [0x00u8; RING_BUFFER_SZ];
        for i in 0..RING_BUFFER_SZ / 4 {
            val[i * 4] = (i >> 0) as u8;
            val[i * 4 + 1] = (i >> 8) as u8;
            val[i * 4 + 2] = (i >> 16) as u8;
            val[i * 4 + 3] = (i >> 24) as u8;
        }
        val
    };

    let val2 = {
        let mut val = [0x00u8; RING_BUFFER_SZ / 2];
        for i in RING_BUFFER_SZ / 4..RING_BUFFER_SZ / 4 + RING_BUFFER_SZ / 4 / 2 {
            let j = i - RING_BUFFER_SZ / 4;
            val[j * 4] = (i >> 0) as u8;
            val[j * 4 + 1] = (i >> 8) as u8;
            val[j * 4 + 2] = (i >> 16) as u8;
            val[j * 4 + 3] = (i >> 24) as u8;
        }
        val
    };

    let mut val3 = [0x0u8; RING_BUFFER_SZ];
    let val4 = {
        let mut val = [0x00u8; RING_BUFFER_SZ];
        for i in RING_BUFFER_SZ / 4 / 2..RING_BUFFER_SZ / 4 / 2 + RING_BUFFER_SZ / 4 {
            let j = i - RING_BUFFER_SZ / 4 / 2;
            val[j * 4] = (i >> 0) as u8;
            val[j * 4 + 1] = (i >> 8) as u8;
            val[j * 4 + 2] = (i >> 16) as u8;
            val[j * 4 + 3] = (i >> 24) as u8;
        }
        val
    };

    assert!(buf.enqueue_slice(&val) == true);
    assert_eq!(buf.len(), RING_BUFFER_SZ);

    assert!(buf.enqueue_slice(&val2) == true);
    assert_eq!(buf.len(), RING_BUFFER_SZ);

    assert!(buf.dequeue_slice(&mut val3) == RING_BUFFER_SZ);
    assert_eq!(buf.len(), 0);

    assert_eq!(&val3[..], &val4[..]);
}

#[test]
fn test_buf_overwrite_linearity() {
    let mut buf = CircularBuffer::new();
    let val = {
        let mut val = [0x00u8; RING_BUFFER_SZ];
        for i in 0..RING_BUFFER_SZ / 4 {
            val[i * 4] = (i >> 0) as u8;
            val[i * 4 + 1] = (i >> 8) as u8;
            val[i * 4 + 2] = (i >> 16) as u8;
            val[i * 4 + 3] = (i >> 24) as u8;
        }
        val
    };

    let val2 = {
        let mut val = [0x00u8; RING_BUFFER_SZ / 2];
        for i in RING_BUFFER_SZ / 4..RING_BUFFER_SZ / 4 + RING_BUFFER_SZ / 4 / 2 {
            let j = i - RING_BUFFER_SZ / 4;
            val[j * 4] = (i >> 0) as u8;
            val[j * 4 + 1] = (i >> 8) as u8;
            val[j * 4 + 2] = (i >> 16) as u8;
            val[j * 4 + 3] = (i >> 24) as u8;
        }
        val
    };

    assert!(buf.enqueue_slice(&val) == true);
    assert_eq!(buf.len(), RING_BUFFER_SZ);

    assert!(buf.enqueue_slice(&val2) == true);
    assert_eq!(buf.len(), RING_BUFFER_SZ);

    let mut cnt_buf = [0xAAu8; 4];
    assert_eq!(buf.dequeue_slice(&mut cnt_buf), 4);
    let mut cnt: u32 = {
        let mut cnt: u32 = 0;
        cnt |= (cnt_buf[0] as u32) << 0;
        cnt |= (cnt_buf[1] as u32) << 8;
        cnt |= (cnt_buf[2] as u32) << 16;
        cnt |= (cnt_buf[3] as u32) << 24;
        cnt
    };

    for _ in 1..RING_BUFFER_SZ / 4 {
        let mut cnt_buf = [0xAAu8; 4];
        assert_eq!(buf.dequeue_slice(&mut cnt_buf[0..1]), 1);
        assert_eq!(buf.dequeue_slice(&mut cnt_buf[1..2]), 1);
        assert_eq!(buf.dequeue_slice(&mut cnt_buf[2..3]), 1);
        assert_eq!(buf.dequeue_slice(&mut cnt_buf[3..4]), 1);

        let cnt_new = {
            let mut cnt: u32 = 0;
            cnt |= (cnt_buf[0] as u32) << 0;
            cnt |= (cnt_buf[1] as u32) << 8;
            cnt |= (cnt_buf[2] as u32) << 16;
            cnt |= (cnt_buf[3] as u32) << 24;
            cnt
        };

        if cnt_new != cnt + 1 {
            panic!();
        }
        cnt = cnt_new;
    }

    assert_eq!(buf.len(), 0);
}

#[test]
fn test_eq_dequeue() {
    let mut cb = CircularBuffer::new();
    for k in 0u8..4 {
        cb.enqueue(0x7E);
        cb.enqueue(0x04);
        cb.enqueue(0x00);
        cb.enqueue(0x81);
        cb.enqueue(k);
        cb.enqueue(0);
        cb.enqueue(0x00);
        cb.enqueue(0x00);
        cb.enqueue(0xFF);
        cb.enqueue(0xFF);
        cb.enqueue(0xBD);
        assert_eq!(cb.len(), 11 * (k as usize + 1));
    }
    let mut out_buf = [0u8; 0x10];
    assert_eq!(cb.dequeue_slice(&mut out_buf), 0x10);
}

#[test]
fn ring_refuses_oversized_block() {
    let mut buf = CircularBuffer::new();
    assert!(buf.enqueue_slice(&[1, 2, 3]));
    let big = vec![7u8; RING_BUFFER_SZ + 1];
    assert!(!buf.enqueue_slice(&big));
    assert_eq!(buf.len(), 3);
    let mut out = [0u8; 3];
    assert_eq!(buf.dequeue_slice(&mut out), 3);
    assert_eq!(out, [1, 2, 3]);
}

#[test]
fn ring_short_read_takes_nothing() {
    let mut buf = CircularBuffer::new();
    assert!(buf.enqueue_slice(&[9, 8]));
    let mut out = [0x55u8; 3];
    assert_eq!(buf.dequeue_slice(&mut out), 0);
    assert_eq!(out, [0x55, 0x55, 0x55]);
    assert_eq!(buf.len(), 2);
    assert_eq!(buf.head(), 0);
    let mut none: [u8; 0] = [];
    assert_eq!(buf.dequeue_slice(&mut none), 0);
    assert_eq!(buf.len(), 2);
}

#[test]
fn ring_counts_and_flags() {
    let mut buf = CircularBuffer::new();
    assert!(!buf.has_elements());
    assert!(!buf.is_full());
    assert_eq!(buf.free_space(), RING_BUFFER_SZ);
    buf.enqueue(1);
    assert!(buf.has_elements());
    assert_eq!(buf.free_space(), RING_BUFFER_SZ - 1);
    assert_eq!(buf.tail(), 1);
    let block = vec![2u8; RING_BUFFER_SZ - 1];
    assert!(buf.enqueue_slice(&block));
    assert!(buf.is_full());
    assert_eq!(buf.free_space(), 0);
    assert_eq!(buf.tail(), 0);
    assert_eq!(buf.head(), 0);
}

#[test]
fn ring_wraps_around_the_end() {
    let mut buf = CircularBuffer::new();
    let first = vec![0u8; RING_BUFFER_SZ - 2];
    assert!(buf.enqueue_slice(&first));
    let mut sink = vec![0u8; RING_BUFFER_SZ - 2];
    assert_eq!(buf.dequeue_slice(&mut sink), RING_BUFFER_SZ - 2);
    assert_eq!(buf.head(), RING_BUFFER_SZ - 2);
    assert!(buf.enqueue_slice(&[10, 11, 12, 13, 14]));
    assert_eq!(buf.tail(), 3);
    assert_eq!(buf.dequeue(), Some(10));
    let mut out = [0u8; 4];
    assert_eq!(buf.dequeue_slice(&mut out), 4);
    assert_eq!(out, [11, 12, 13, 14]);
    assert_eq!(buf.head(), 3);
    assert_eq!(buf.dequeue(), None);
}

#[test]
fn ring_overflow_keeps_newest() {
    let mut buf = CircularBuffer::new();
    let old = counter_block(0, RING_BUFFER_SZ / 4);
    assert!(buf.enqueue_slice(&old));
    assert!(buf.enqueue_slice(&[0xEE, 0xEF]));
    assert_eq!(buf.len(), RING_BUFFER_SZ);
    assert_eq!(buf.head(), buf.tail());
    let mut out = vec![0u8; RING_BUFFER_SZ];
    assert_eq!(buf.dequeue_slice(&mut out), RING_BUFFER_SZ);
    assert_eq!(&out[..RING_BUFFER_SZ - 2], &old[2..]);
    assert_eq!(&out[RING_BUFFER_SZ - 2..], &[0xEE, 0xEF]);
}

#[test]
fn ring_single_byte_matches_block_of_one() {
    let mut a = CircularBuffer::new();
    let mut b = CircularBuffer::new();
    for k in 0u8..5 {
        a.enqueue(k);
        assert!(b.enqueue_slice(&[k]));
    }
    let mut oa = [0u8; 5];
    let mut ob = [0u8; 5];
    assert_eq!(a.dequeue_slice(&mut oa), 5);
    assert_eq!(b.dequeue_slice(&mut ob), 5);
    assert_eq!(oa, ob);
    assert_eq!(oa, [0, 1, 2, 3, 4]);
}

#[test]
fn ring_bytewise_read_equals_block_read() {
    let block = counter_block(0, 16);
    let mut a = CircularBuffer::new();
    let mut b = CircularBuffer::new();
    assert!(a.enqueue_slice(&block));
    assert!(b.enqueue_slice(&block));
    let mut x = [0u8; 40];
    assert_eq!(a.dequeue_slice(&mut x), 40);
    let mut y = [0u8; 40];
    for k in 0..40 {
        assert_eq!(b.dequeue_slice(&mut y[k..k + 1]), 1);
    }
    assert_eq!(x, y);
    assert_eq!(a.len(), b.len());
    assert_eq!(a.len(), 24);
    let mut ra = [0u8; 24];
    let mut rb = [0u8; 24];
    assert_eq!(a.dequeue_slice(&mut ra), 24);
    assert_eq!(b.dequeue_slice(&mut rb), 24);
    assert_eq!(ra, rb);
}
