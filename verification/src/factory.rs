//! The device factory: the known producers of devices, by reference, and
//! the orders that ask for a device.
use vstd::prelude::*;
use crate::json::{JsonValue, JsonView, json_view};
use crate::logger::{FactoryLogger, LogLevel, LogRecord, is_record_of};
use crate::registry::Registry;

verus! {

/// A producer of devices of one model of one manufacturer.
pub trait Producer {
    /// The manufacturer that `manufacturer` returns.
    spec fn spec_manufacturer(&self) -> Seq<char>;

    /// The model that `model` returns.
    spec fn spec_model(&self) -> Seq<char>;

    /// Device manufacturer.
    fn manufacturer(&self) -> (m: String)
        ensures
            m@ == self.spec_manufacturer(),
    ;

    /// Device model.
    fn model(&self) -> (m: String)
        ensures
            m@ == self.spec_model(),
    ;
}

/// The reference `manufacturer.model` under which a producer is known.
pub open spec fn producer_ref(manufacturer: Seq<char>, model: Seq<char>) -> Seq<char> {
    manufacturer + "."@ + model
}

/// Producer of the platform device `_`.
pub struct RootProducer {}

impl RootProducer {
    /// The producer of the platform device, known under the reference `_._`.
    pub fn new() -> (p: Box<RootProducer>)
        ensures
            p.spec_manufacturer() == "_"@,
            p.spec_model() == "_"@,
            producer_ref(p.spec_manufacturer(), p.spec_model()) == "_._"@,
    {
        proof {
            reveal_strlit("_");
            reveal_strlit(".");
            reveal_strlit("_._");
            assert("_"@ + "."@ + "_"@ =~= "_._"@);
        }
        Box::new(RootProducer {})
    }
}

impl Producer for RootProducer {
    open spec fn spec_manufacturer(&self) -> Seq<char> {
        "_"@
    }

    open spec fn spec_model(&self) -> Seq<char> {
        "_"@
    }

    fn manufacturer(&self) -> (m: String) {
        String::from_str("_")
    }

    fn model(&self) -> (m: String) {
        String::from_str("_")
    }
}

/// An order to produce a device: its name, the reference of its producer and
/// its settings.
pub struct ProductionOrder {
    /// Name of the device to be produced.
    pub device_name: String,
    /// Reference of the device producer.
    pub device_ref: String,
    /// Settings of the device.
    pub device_settings: JsonValue,
}

impl ProductionOrder {
    /// An order for the device `d_name` from the producer `d_ref`, without settings.
    pub fn new(d_ref: &str, d_name: &str) -> (o: ProductionOrder)
        ensures
            o.device_name@ == d_name@,
            o.device_ref@ == d_ref@,
            json_view(o.device_settings) == JsonView::Null,
    {
        ProductionOrder {
            device_name: String::from_str(d_name),
            device_ref: String::from_str(d_ref),
            device_settings: JsonValue::Null,
        }
    }

    /// An order read from JSON; the value is not read yet: the order is
    /// always the device `test` of producer `rtok` with empty settings.
    pub fn from_json(value: &JsonValue) -> (o: ProductionOrder)
        ensures
            o.device_name@ == "test"@,
            o.device_ref@ == "rtok"@,
            json_view(o.device_settings) == JsonView::Object(Seq::empty()),
    {
        let settings: Vec<(String, JsonValue)> = Vec::new();
        let o = ProductionOrder {
            device_name: String::from_str("test"),
            device_ref: String::from_str("rtok"),
            device_settings: JsonValue::Object(settings),
        };
        assert(json_view(o.device_settings) =~= JsonView::Object(Seq::empty()));
        o
    }

    /// Reference of the device producer.
    pub fn device_ref(&self) -> (r: &String)
        ensures
            r@ == self.device_ref@,
    {
        &self.device_ref
    }
}

/// Factory to create devices: the producers known by their reference.
pub struct Factory<P> {
    logger: FactoryLogger,
    producers: Registry<P>,
}

impl<P: Producer> Factory<P> {
    /// The known producers, by reference.
    pub closed spec fn producers_view(&self) -> Map<Seq<char>, P> {
        self.producers.view_map()
    }

    pub closed spec fn logger_view(&self) -> FactoryLogger {
        self.logger
    }

    /// A factory without producers.
    pub fn new() -> (f: Factory<P>)
        ensures
            f.producers_view() == Map::<Seq<char>, P>::empty(),
            f.logger_view().base_view().class_view() == "Factory"@,
    {
        Factory { logger: FactoryLogger::new(), producers: Registry::new() }
    }

    /// The record logged when the factory starts.
    pub fn startup_log(&self) -> (r: LogRecord)
        ensures
            is_record_of(r, self.logger_view().base_view(), LogLevel::Info, "# Device factory initialization"@),
    {
        self.logger.info("# Device factory initialization")
    }

    /// Adds `producer` under the reference `manufacturer.model`, replacing a
    /// producer of the same reference; returns the record of the addition.
    pub fn add_producer(&mut self, producer: P) -> (r: LogRecord)
        ensures
            final(self).producers_view() == old(self).producers_view().insert(
                producer_ref(producer.spec_manufacturer(), producer.spec_model()),
                producer,
            ),
            final(self).logger_view() == old(self).logger_view(),
            is_record_of(
                r,
                old(self).logger_view().base_view(),
                LogLevel::Info,
                "  - "@ + producer_ref(producer.spec_manufacturer(), producer.spec_model()),
            ),
    {
        let mut key = producer.manufacturer();
        key.append(".");
        key.append(producer.model().as_str());
        let mut text = String::from_str("  - ");
        text.append(key.as_str());
        let r = self.logger.info(text.as_str());
        self.producers.insert(key, producer);
        r
    }

    /// Adds the producers in order; returns the records of the additions.
    pub fn add_producers(&mut self, producers: Vec<P>) -> (logs: Vec<LogRecord>)
        ensures
            logs.len() == producers.len(),
            final(self).producers_view() == insert_all(old(self).producers_view(), producers@),
            final(self).logger_view() == old(self).logger_view(),
    {
        let mut logs: Vec<LogRecord> = Vec::new();
        let ghost start = self.producers_view();
        let ghost all = producers@;
        for producer in it: producers.into_iter()
            invariant
                it.seq() == all,
                logs.len() == it.index(),
                self.producers_view() == insert_all(start, all.take(it.index() as int)),
                self.logger_view() == old(self).logger_view(),
        {
            proof {
                assert(all.take(it.index() + 1).drop_last() =~= all.take(it.index() as int));
            }
            let r = self.add_producer(producer);
            logs.push(r);
        }
        proof {
            assert(all.take(all.len() as int) =~= all);
        }
        logs
    }

    /// The producer known under `device_ref`, if any.
    pub fn producer(&self, device_ref: &str) -> (p: Option<&P>)
        ensures
            match p {
                Some(x) => self.producers_view().contains_key(device_ref@) && *x == self.producers_view()[device_ref@],
                None => !self.producers_view().contains_key(device_ref@),
            },
    {
        self.producers.get(device_ref)
    }
}

/// The map after inserting each producer in order under its reference.
pub open spec fn insert_all<P: Producer>(m: Map<Seq<char>, P>, ps: Seq<P>) -> Map<Seq<char>, P>
    decreases ps.len(),
{
    if ps.len() == 0 {
        m
    } else {
        insert_all(m, ps.drop_last()).insert(producer_ref(ps.last().spec_manufacturer(), ps.last().spec_model()), ps.last())
    }
}

} // verus!
