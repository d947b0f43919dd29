//! Sensors: anything that reports a reading as a `u32`.

use vstd::prelude::*;

verus! {

/// Something that can be read for its current value.
pub trait Sensor {
    /// Reads the sensor. Each implementation says in its own contract which
    /// value it reports.
    fn read(&self) -> u32;

    /// Overwrites every slot of `buffer` with a reading of this sensor: a
    /// value that `read` returns for it. The buffer keeps its length, and an
    /// empty buffer is left as it is.
    ///
    /// The provided body reads the sensor once for each slot, in order.
    fn fill(&self, buffer: &mut [u32])
        ensures
            final(buffer)@.len() == old(buffer)@.len(),
            forall|i: int|
                0 <= i < final(buffer)@.len() ==> call_ensures(
                    Self::read,
                    (self,),
                    #[trigger] final(buffer)@[i],
                ),
    {
        let n = buffer.len();
        for i in 0..n
            invariant
                buffer@.len() == n,
                forall|j: int|
                    0 <= j < i ==> call_ensures(Self::read, (self,), #[trigger] buffer@[j]),
        {
            buffer[i] = self.read();
        }
    }
}

/// A light sensor, which holds its reading as it is.
pub struct LightSensor {
    pub value: u32,
}

impl Sensor for LightSensor {
    /// Returns the stored value unchanged.
    fn read(&self) -> (value: u32)
        ensures
            value == self.value,
    {
        self.value
    }
}

/// A light sensor has one reading, its stored value: a buffer in which every
/// slot holds a reading of it, as `fill` leaves it, holds that value in every
/// slot.
pub proof fn lemma_light_sensor_fills_with_its_value(sensor: LightSensor, buffer: Seq<u32>)
    requires
        forall|i: int|
            0 <= i < buffer.len() ==> call_ensures(
                LightSensor::read,
                (&sensor,),
                #[trigger] buffer[i],
            ),
    ensures
        buffer == Seq::new(buffer.len(), |i: int| sensor.value),
{
}

} // verus!
