use raster_calc::processing::parallel::ParallelProcessor;
use raster_calc::utils::cache::RasterCache;
use std::rc::Rc;

#[test]
fn new_cache_is_empty() {
    let cache: RasterCache<u32> = RasterCache::new();
    assert_eq!(cache.len(), 0);
    assert!(!cache.contains("a.tif"));
    assert!(cache.peek("a.tif").is_none());
}

#[test]
fn repeated_get_returns_the_same_handle() {
    let mut cache: RasterCache<Rc<String>> = RasterCache::new();
    let mut opens = 0;
    let first = cache
        .get_dataset("a.tif", |id: &str| -> Result<Rc<String>, String> {
            opens += 1;
            Ok(Rc::new(id.to_string()))
        })
        .unwrap()
        .clone();
    let second = cache
        .get_dataset("a.tif", |id: &str| -> Result<Rc<String>, String> {
            opens += 1;
            Ok(Rc::new(id.to_string()))
        })
        .unwrap()
        .clone();
    assert!(Rc::ptr_eq(&first, &second));
    assert_eq!(opens, 1);
    assert_eq!(cache.len(), 1);
}

#[test]
fn size_counts_distinct_ids() {
    let mut cache: RasterCache<usize> = RasterCache::new();
    let ids = ["a.tif", "b.tif", "a.tif", "c.tif", "b.tif", "a.tif"];
    for (i, id) in ids.iter().enumerate() {
        let served = *cache.get_dataset(id, |_: &str| -> Result<usize, String> { Ok(i) }).unwrap();
        let first_use = ids.iter().position(|other| other == id).unwrap();
        assert_eq!(served, first_use);
    }
    assert_eq!(cache.len(), 3);
    assert!(cache.contains("c.tif"));
    assert_eq!(cache.peek("b.tif"), Some(&1));
}

#[test]
fn failed_open_is_not_cached() {
    let mut cache: RasterCache<u32> = RasterCache::new();
    let failed = cache.get_dataset("a.tif", |_: &str| -> Result<u32, String> { Err("no such file".to_string()) });
    assert_eq!(failed, Err("no such file".to_string()));
    assert_eq!(cache.len(), 0);
    assert!(!cache.contains("a.tif"));
    let retried = cache.get_dataset("a.tif", |_: &str| -> Result<u32, String> { Ok(7) });
    assert_eq!(retried, Ok(&7));
    assert_eq!(cache.len(), 1);
}

#[test]
fn clear_evicts_and_the_next_get_reopens() {
    let mut cache: RasterCache<u32> = RasterCache::new();
    cache.get_dataset("a.tif", |_: &str| -> Result<u32, String> { Ok(1) }).unwrap();
    cache.get_dataset("b.tif", |_: &str| -> Result<u32, String> { Ok(2) }).unwrap();
    assert_eq!(cache.len(), 2);
    cache.clear();
    assert_eq!(cache.len(), 0);
    assert!(cache.peek("a.tif").is_none());
    let reopened = *cache.get_dataset("a.tif", |_: &str| -> Result<u32, String> { Ok(3) }).unwrap();
    assert_eq!(reopened, 3);
    assert_eq!(cache.len(), 1);
}

#[test]
fn ids_are_told_apart_exactly() {
    let mut cache: RasterCache<u32> = RasterCache::new();
    cache.get_dataset("a.tif", |_: &str| -> Result<u32, String> { Ok(1) }).unwrap();
    cache.get_dataset("A.tif", |_: &str| -> Result<u32, String> { Ok(2) }).unwrap();
    cache.get_dataset("a.tif ", |_: &str| -> Result<u32, String> { Ok(3) }).unwrap();
    cache.get_dataset("", |_: &str| -> Result<u32, String> { Ok(4) }).unwrap();
    assert_eq!(cache.len(), 4);
    assert_eq!(cache.peek("a.tif"), Some(&1));
    assert_eq!(cache.peek(""), Some(&4));
}

#[test]
fn processor_reports_the_size_of_its_cache() {
    let mut cache: RasterCache<u32> = RasterCache::new();
    cache.get_dataset("a.tif", |_: &str| -> Result<u32, String> { Ok(1) }).unwrap();
    cache.get_dataset("b.tif", |_: &str| -> Result<u32, String> { Ok(2) }).unwrap();
    let mut processor = ParallelProcessor::with_cache(Some(2), None, cache);
    assert_eq!(processor.cache_size(), 2);
    processor.clear_cache();
    assert_eq!(processor.cache_size(), 0);
    assert!(processor.cache().is_some());
}
